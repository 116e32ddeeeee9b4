//! The initiator role: configuration for one outbound connection. The
//! connect, handshake and task spawning are performed by the unverified
//! shell; it drives the session state machine with the settings carried
//! here.

use vstd::prelude::*;
use crate::ws_settings::WebSocketSettings;
use crate::ws_settings::WebSocketSettingsView;

verus! {

/// Whether a string parses as a URI whose scheme is `ws`. A function of
/// the string alone.
pub uninterp spec fn spec_is_ws_address(s: Seq<char>) -> bool;

/// Relies on `http::Uri` parsing, through the transport crate's re-export:
/// whether an address parses as a URI with scheme `ws` depends on the
/// address string alone.
#[verifier::external_body]
fn is_ws_address(address: &str) -> (r: bool)
    ensures
        r == spec_is_ws_address(address@),
{
    match address.parse::<tokio_tungstenite::tungstenite::http::Uri>() {
        Ok(uri) => uri.scheme_str() == Some("ws"),
        Err(_) => false,
    }
}

/// Why a client could not be built.
#[derive(Debug)]
pub enum ClientError {
    /// A builder step was missing or misused.
    BuilderError(String),
}

/// Abstract value of a client error.
pub ghost enum ClientErrorView {
    BuilderError(Seq<char>),
}

impl View for ClientError {
    type V = ClientErrorView;

    open spec fn view(&self) -> ClientErrorView {
        match self {
            ClientError::BuilderError(s) => ClientErrorView::BuilderError(s@),
        }
    }
}

/// Abstract value of a client: where to connect and under what settings.
pub ghost struct ClientView {
    pub address: Seq<char>,
    pub settings: WebSocketSettingsView,
}

/// A configured initiator: the address to connect to and the settings its
/// session will run under.
pub struct Client {
    /// The endpoint address, e.g. a `ws://host:port` URI.
    pub address: String,
    /// The settings snapshot shared with the session.
    pub settings: WebSocketSettings,
}

impl View for Client {
    type V = ClientView;

    open spec fn view(&self) -> ClientView {
        ClientView { address: self.address@, settings: self.settings@ }
    }
}

impl Client {
    /// The settings are valid.
    pub open spec fn wf(self) -> bool {
        self@.settings.wf()
    }

    /// Starts assembling a client.
    pub fn builder() -> (r: ClientBuilder)
        ensures
            r.wf(),
            r@ matches Ok(p) && p.address is None && p.settings
                == WebSocketSettingsView::spec_default(),
    {
        ClientBuilder::new()
    }

    /// Adopts assembled parts: refused without an address, accepted as they
    /// stand with one.
    fn from_parts(src: ClientParts) -> (r: Result<Client, ClientError>)
        requires
            src.settings@.wf(),
        ensures
            match r {
                Ok(c) => {
                    &&& src.address matches Some(a) && c@.address == a@
                    &&& c@.settings == src.settings@
                    &&& c.wf()
                },
                Err(e) => {
                    &&& src.address is None
                    &&& e@ == ClientErrorView::BuilderError("address not specified"@)
                },
            },
    {
        match src.address {
            None => Err(ClientError::BuilderError("address not specified".to_owned())),
            Some(address) => Ok(Client { address, settings: src.settings }),
        }
    }
}

/// Abstract value of the parts a client builder accumulates.
pub ghost struct ClientPartsView {
    pub address: Option<Seq<char>>,
    pub settings: WebSocketSettingsView,
}

/// The state a client builder accumulates.
pub struct ClientParts {
    pub address: Option<String>,
    pub settings: WebSocketSettings,
}

impl View for ClientParts {
    type V = ClientPartsView;

    open spec fn view(&self) -> ClientPartsView {
        ClientPartsView {
            address: match self.address {
                Some(a) => Some(a@),
                None => None,
            },
            settings: self.settings@,
        }
    }
}

impl Default for ClientParts {
    /// Fresh parts: no address, default settings.
    fn default() -> (r: Self)
        ensures
            r@.address is None,
            r@.settings == WebSocketSettingsView::spec_default(),
    {
        ClientParts { address: None, settings: WebSocketSettings::default() }
    }
}

/// Assembles a client step by step.
pub struct ClientBuilder {
    pub parts: Result<ClientParts, ClientError>,
}

impl View for ClientBuilder {
    type V = Result<ClientPartsView, ClientErrorView>;

    open spec fn view(&self) -> Result<ClientPartsView, ClientErrorView> {
        match &self.parts {
            Ok(p) => Ok(p@),
            Err(e) => Err(e@),
        }
    }
}

impl ClientBuilder {
    /// Any settings assembled so far are valid.
    pub open spec fn wf(self) -> bool {
        self.parts matches Ok(p) ==> p.settings@.wf()
    }

    /// A fresh builder holds the defaults.
    pub(crate) fn new() -> (r: ClientBuilder)
        ensures
            r.wf(),
            r@ matches Ok(p) && p.address is None && p.settings
                == WebSocketSettingsView::spec_default(),
    {
        ClientBuilder { parts: Ok(ClientParts::default()) }
    }

    /// Sets the address to connect to. An address that does not parse as a
    /// `ws` URI poisons the builder; otherwise it is recorded and
    /// everything else is kept.
    pub fn address(self, address: &str) -> (r: Self)
        requires
            self.wf(),
        ensures
            r.wf(),
            self@ matches Err(_) ==> r@ == self@,
            self@ matches Ok(p) ==> {
                if spec_is_ws_address(address@) {
                    r@ matches Ok(p2) && p2.address == Some(address@) && p2.settings == p.settings
                } else {
                    r@ == Err::<ClientPartsView, ClientErrorView>(
                        ClientErrorView::BuilderError("not a ws address"@),
                    )
                }
            },
    {
        match self.parts {
            Err(e) => ClientBuilder { parts: Err(e) },
            Ok(p) => {
                if is_ws_address(address) {
                    ClientBuilder {
                        parts: Ok(
                            ClientParts { address: Some(address.to_owned()), settings: p.settings },
                        ),
                    }
                } else {
                    ClientBuilder {
                        parts: Err(ClientError::BuilderError("not a ws address".to_owned())),
                    }
                }
            },
        }
    }

    /// Sets the settings; the address is kept.
    pub fn settings(self, settings: WebSocketSettings) -> (r: Self)
        requires
            self.wf(),
            settings@.wf(),
        ensures
            r.wf(),
            self@ matches Err(_) ==> r@ == self@,
            self@ matches Ok(p) ==> r@ matches Ok(p2) && p2.address == p.address && p2.settings
                == settings@,
    {
        match self.parts {
            Err(e) => ClientBuilder { parts: Err(e) },
            Ok(p) => ClientBuilder { parts: Ok(ClientParts { address: p.address, settings }) },
        }
    }

    /// Finishes the build: a client exactly when an address was set, the
    /// first error otherwise.
    pub fn build(self) -> (r: Result<Client, ClientError>)
        requires
            self.wf(),
        ensures
            match r {
                Ok(c) => {
                    &&& self@ matches Ok(p)
                    &&& p.address matches Some(a) && c@.address == a
                    &&& c@.settings == p.settings
                    &&& c.wf()
                },
                Err(e) => match self@ {
                    Ok(p) => p.address is None && e@ == ClientErrorView::BuilderError(
                        "address not specified"@,
                    ),
                    Err(e0) => e@ == e0,
                },
            },
    {
        match self.parts {
            Err(e) => Err(e),
            Ok(p) => Client::from_parts(p),
        }
    }
}

} // verus!
