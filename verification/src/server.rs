//! The acceptor role: configuration for a listening endpoint. The bind,
//! accept loop, handshake and task spawning are performed by the unverified
//! shell; it instantiates one session per accepted connection under the
//! settings carried here.

use vstd::prelude::*;
use crate::ws_settings::WebSocketSettings;
use crate::ws_settings::WebSocketSettingsView;

verus! {

/// Why a server could not be built or run.
#[derive(Clone, Copy, Debug, PartialEq, Eq, Structural)]
pub enum Error {
    /// A builder step was missing or misused.
    BuilderError,
    /// The listening endpoint failed.
    ServerError,
}

/// Abstract value of a server: where to listen and under what settings.
pub ghost struct ServerView {
    pub address: Seq<char>,
    pub settings: WebSocketSettingsView,
}

/// A configured acceptor: the address to listen on and the settings every
/// accepted session will run under.
pub struct Server {
    /// The socket address to bind, e.g. `host:port`.
    pub address: String,
    /// The settings snapshot shared with every session.
    pub settings: WebSocketSettings,
}

impl View for Server {
    type V = ServerView;

    open spec fn view(&self) -> ServerView {
        ServerView { address: self.address@, settings: self.settings@ }
    }
}

impl Server {
    /// The settings are valid.
    pub open spec fn wf(self) -> bool {
        self@.settings.wf()
    }

    /// Starts assembling a server.
    pub fn builder() -> (r: ServerBuilder)
        ensures
            r.wf(),
            r@ matches Ok(p) && p.address is None && p.settings
                == WebSocketSettingsView::spec_default(),
    {
        ServerBuilder::new()
    }

    /// Adopts assembled parts: refused without an address, accepted as they
    /// stand with one.
    fn from_parts(src: ServerParts) -> (r: Result<Server, Error>)
        requires
            src.settings@.wf(),
        ensures
            match r {
                Ok(s) => {
                    &&& src.address matches Some(a) && s@.address == a@
                    &&& s@.settings == src.settings@
                    &&& s.wf()
                },
                Err(e) => src.address is None && e == Error::BuilderError,
            },
    {
        match src.address {
            None => Err(Error::BuilderError),
            Some(address) => Ok(Server { address, settings: src.settings }),
        }
    }
}

/// Abstract value of the parts a server builder accumulates.
pub ghost struct ServerPartsView {
    pub address: Option<Seq<char>>,
    pub settings: WebSocketSettingsView,
}

/// The state a server builder accumulates.
pub struct ServerParts {
    pub address: Option<String>,
    pub settings: WebSocketSettings,
}

impl View for ServerParts {
    type V = ServerPartsView;

    open spec fn view(&self) -> ServerPartsView {
        ServerPartsView {
            address: match self.address {
                Some(a) => Some(a@),
                None => None,
            },
            settings: self.settings@,
        }
    }
}

impl Default for ServerParts {
    /// Fresh parts: no address, default settings.
    fn default() -> (r: Self)
        ensures
            r@.address is None,
            r@.settings == WebSocketSettingsView::spec_default(),
    {
        ServerParts { address: None, settings: WebSocketSettings::default() }
    }
}

/// Assembles a server step by step.
pub struct ServerBuilder {
    pub parts: Result<ServerParts, Error>,
}

impl View for ServerBuilder {
    type V = Result<ServerPartsView, Error>;

    open spec fn view(&self) -> Result<ServerPartsView, Error> {
        match &self.parts {
            Ok(p) => Ok(p@),
            Err(e) => Err(*e),
        }
    }
}

impl ServerBuilder {
    /// Any settings assembled so far are valid.
    pub open spec fn wf(self) -> bool {
        self.parts matches Ok(p) ==> p.settings@.wf()
    }

    /// A fresh builder holds the defaults.
    pub(crate) fn new() -> (r: ServerBuilder)
        ensures
            r.wf(),
            r@ matches Ok(p) && p.address is None && p.settings
                == WebSocketSettingsView::spec_default(),
    {
        ServerBuilder { parts: Ok(ServerParts::default()) }
    }

    /// Sets the address to listen on; everything else is kept.
    pub fn address(self, address: &str) -> (r: Self)
        requires
            self.wf(),
        ensures
            r.wf(),
            self@ matches Err(_) ==> r@ == self@,
            self@ matches Ok(p) ==> r@ matches Ok(p2) && p2.address == Some(address@)
                && p2.settings == p.settings,
    {
        match self.parts {
            Err(e) => ServerBuilder { parts: Err(e) },
            Ok(p) => ServerBuilder {
                parts: Ok(ServerParts { address: Some(address.to_owned()), settings: p.settings }),
            },
        }
    }

    /// Sets the settings; the address is kept.
    pub fn settings(self, settings: WebSocketSettings) -> (r: Self)
        requires
            self.wf(),
            settings@.wf(),
        ensures
            r.wf(),
            self@ matches Err(_) ==> r@ == self@,
            self@ matches Ok(p) ==> r@ matches Ok(p2) && p2.address == p.address && p2.settings
                == settings@,
    {
        match self.parts {
            Err(e) => ServerBuilder { parts: Err(e) },
            Ok(p) => ServerBuilder { parts: Ok(ServerParts { address: p.address, settings }) },
        }
    }

    /// Finishes the build: a server exactly when an address was set, the
    /// first error otherwise.
    pub fn build(self) -> (r: Result<Server, Error>)
        requires
            self.wf(),
        ensures
            match r {
                Ok(s) => {
                    &&& self@ matches Ok(p)
                    &&& p.address matches Some(a) && s@.address == a
                    &&& s@.settings == p.settings
                    &&& s.wf()
                },
                Err(e) => match self@ {
                    Ok(p) => p.address is None && e == Error::BuilderError,
                    Err(e0) => e == e0,
                },
            },
    {
        match self.parts {
            Err(e) => Err(e),
            Ok(p) => Server::from_parts(p),
        }
    }
}

} // verus!
