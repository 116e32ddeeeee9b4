//! Connection settings and their builder. Settings are assembled once,
//! validated as they are assembled, and then shared read-only by every
//! session spawned under them; a misused keybinding registration surfaces
//! as a build-time error, never later at runtime.

use vstd::prelude::*;
use crate::keybindings::seq_has_key;
use crate::keybindings::seq_keys_unique;
use crate::keybindings::spec_default_bindings;
use crate::keybindings::spec_is_reserved;
use crate::keybindings::Key;
use crate::keybindings::KeybindingError;
use crate::keybindings::Keybindings;
use crate::message::Message;
use crate::message::MessageView;

verus! {

/// Abstract value of a settings record: the keybinding table value, the
/// optional connect-time greeting, and the two policy flags.
pub ghost struct WebSocketSettingsView {
    pub keybindings: Option<Seq<(Key, MessageView)>>,
    pub on_connect_message: Option<MessageView>,
    pub auto_pong: bool,
    pub log_incoming_messages: bool,
}

impl WebSocketSettingsView {
    /// The keybinding table, if present, binds no key twice.
    pub open spec fn wf(self) -> bool {
        self.keybindings matches Some(t) ==> seq_keys_unique(t)
    }

    /// The defaults: no table, no greeting, both flags off.
    pub open spec fn spec_default() -> WebSocketSettingsView {
        WebSocketSettingsView {
            keybindings: None,
            on_connect_message: None,
            auto_pong: false,
            log_incoming_messages: false,
        }
    }

    /// The table that one more registration extends: the table assembled so
    /// far, or the default table when none was assembled yet.
    pub open spec fn effective_bindings(self) -> Seq<(Key, MessageView)> {
        match self.keybindings {
            Some(t) => t,
            None => spec_default_bindings(),
        }
    }
}

/// Why settings could not be built.
#[derive(Debug)]
pub enum WebSocketSettingsError {
    /// A builder step was misused.
    BuilderError(String),
    /// The assembled parts do not form valid settings.
    PartsError(String),
}

/// Abstract value of a settings error: the variant and its text.
pub ghost enum WebSocketSettingsErrorView {
    BuilderError(Seq<char>),
    PartsError(Seq<char>),
}

impl View for WebSocketSettingsError {
    type V = WebSocketSettingsErrorView;

    open spec fn view(&self) -> WebSocketSettingsErrorView {
        match self {
            WebSocketSettingsError::BuilderError(s) => WebSocketSettingsErrorView::BuilderError(
                s@,
            ),
            WebSocketSettingsError::PartsError(s) => WebSocketSettingsErrorView::PartsError(s@),
        }
    }
}

/// The settings a session runs under. Immutable after construction.
pub struct WebSocketSettings {
    /// The keybinding table the terminal event source consults.
    pub keybindings: Option<Keybindings>,
    /// Sent as the first outbound frame of every session, when set.
    pub on_connect_message: Option<Message>,
    /// Answer inbound pings with pongs.
    pub auto_pong: bool,
    /// Log inbound text and pong frames.
    pub log_incoming_messages: bool,
}

impl View for WebSocketSettings {
    type V = WebSocketSettingsView;

    open spec fn view(&self) -> WebSocketSettingsView {
        WebSocketSettingsView {
            keybindings: match self.keybindings {
                Some(kb) => Some(kb@),
                None => None,
            },
            on_connect_message: match self.on_connect_message {
                Some(m) => Some(m@),
                None => None,
            },
            auto_pong: self.auto_pong,
            log_incoming_messages: self.log_incoming_messages,
        }
    }
}

/// The state a builder accumulates.
pub struct WebSocketSettingsParts {
    pub keybindings: Option<Keybindings>,
    pub on_connect_message: Option<Message>,
    pub auto_pong: bool,
    pub log_incoming_messages: bool,
}

impl View for WebSocketSettingsParts {
    type V = WebSocketSettingsView;

    open spec fn view(&self) -> WebSocketSettingsView {
        WebSocketSettingsView {
            keybindings: match self.keybindings {
                Some(kb) => Some(kb@),
                None => None,
            },
            on_connect_message: match self.on_connect_message {
                Some(m) => Some(m@),
                None => None,
            },
            auto_pong: self.auto_pong,
            log_incoming_messages: self.log_incoming_messages,
        }
    }
}

impl Default for WebSocketSettingsParts {
    /// Fresh parts hold the defaults.
    fn default() -> (r: Self)
        ensures
            r@ == WebSocketSettingsView::spec_default(),
    {
        WebSocketSettingsParts {
            keybindings: None,
            on_connect_message: None,
            auto_pong: false,
            log_incoming_messages: false,
        }
    }
}

/// Assembles settings step by step; the first misused step poisons the
/// builder and `build` reports it.
pub struct WebSocketSettingsBuilder {
    pub parts: Result<WebSocketSettingsParts, WebSocketSettingsError>,
}

impl View for WebSocketSettingsBuilder {
    type V = Result<WebSocketSettingsView, WebSocketSettingsErrorView>;

    open spec fn view(&self) -> Result<WebSocketSettingsView, WebSocketSettingsErrorView> {
        match &self.parts {
            Ok(p) => Ok(p@),
            Err(e) => Err(e@),
        }
    }
}

impl WebSocketSettingsBuilder {
    /// Any table assembled so far binds no key twice.
    pub open spec fn wf(self) -> bool {
        self.parts matches Ok(p) ==> p@.wf()
    }

    /// A fresh builder holds the defaults.
    pub(crate) fn new() -> (r: WebSocketSettingsBuilder)
        ensures
            r.wf(),
            r@ == Ok::<WebSocketSettingsView, WebSocketSettingsErrorView>(
                WebSocketSettingsView::spec_default(),
            ),
    {
        WebSocketSettingsBuilder { parts: Ok(WebSocketSettingsParts::default()) }
    }

    /// Registers one keybinding. A reserved or already-bound key poisons the
    /// builder with a `BuilderError`; otherwise the binding is appended to
    /// the table (starting from the default table when none was assembled
    /// yet) and everything else is kept.
    pub fn add_keybinding(self, key: Key, message: Message) -> (r: Self)
        requires
            self.wf(),
        ensures
            r.wf(),
            self@ matches Err(_) ==> r@ == self@,
            self@ matches Ok(p) ==> {
                if spec_is_reserved(key) {
                    r@ == Err::<WebSocketSettingsView, WebSocketSettingsErrorView>(
                        WebSocketSettingsErrorView::BuilderError("use of reserved key"@),
                    )
                } else if seq_has_key(p.effective_bindings(), key) {
                    r@ == Err::<WebSocketSettingsView, WebSocketSettingsErrorView>(
                        WebSocketSettingsErrorView::BuilderError("keybinding already exists"@),
                    )
                } else {
                    r@ matches Ok(p2) && {
                        &&& p2.keybindings == Some(p.effective_bindings().push((key, message@)))
                        &&& p2.on_connect_message == p.on_connect_message
                        &&& p2.auto_pong == p.auto_pong
                        &&& p2.log_incoming_messages == p.log_incoming_messages
                    }
                }
            },
    {
        match self.parts {
            Err(e) => WebSocketSettingsBuilder { parts: Err(e) },
            Ok(p) => {
                let WebSocketSettingsParts {
                    keybindings,
                    on_connect_message,
                    auto_pong,
                    log_incoming_messages,
                } = p;
                let mut kb = match keybindings {
                    Some(kb) => kb,
                    None => Keybindings::new(),
                };
                match kb.add(key, message) {
                    Ok(()) => WebSocketSettingsBuilder {
                        parts: Ok(
                            WebSocketSettingsParts {
                                keybindings: Some(kb),
                                on_connect_message,
                                auto_pong,
                                log_incoming_messages,
                            },
                        ),
                    },
                    Err(KeybindingError::ReservedKeyError) => WebSocketSettingsBuilder {
                        parts: Err(
                            WebSocketSettingsError::BuilderError("use of reserved key".to_owned()),
                        ),
                    },
                    Err(KeybindingError::DuplicateKeyError) => WebSocketSettingsBuilder {
                        parts: Err(
                            WebSocketSettingsError::BuilderError(
                                "keybinding already exists".to_owned(),
                            ),
                        ),
                    },
                }
            },
        }
    }

    /// Sets the connect-time greeting; everything else is kept.
    pub fn on_connect_message(self, message: Message) -> (r: Self)
        requires
            self.wf(),
        ensures
            r.wf(),
            self@ matches Err(_) ==> r@ == self@,
            self@ matches Ok(p) ==> r@ matches Ok(p2) && {
                &&& p2.keybindings == p.keybindings
                &&& p2.on_connect_message == Some(message@)
                &&& p2.auto_pong == p.auto_pong
                &&& p2.log_incoming_messages == p.log_incoming_messages
            },
    {
        match self.parts {
            Err(e) => WebSocketSettingsBuilder { parts: Err(e) },
            Ok(p) => WebSocketSettingsBuilder {
                parts: Ok(
                    WebSocketSettingsParts {
                        keybindings: p.keybindings,
                        on_connect_message: Some(message),
                        auto_pong: p.auto_pong,
                        log_incoming_messages: p.log_incoming_messages,
                    },
                ),
            },
        }
    }

    /// Enables answering inbound pings with pongs; everything else is kept.
    pub fn auto_pong(self) -> (r: Self)
        requires
            self.wf(),
        ensures
            r.wf(),
            self@ matches Err(_) ==> r@ == self@,
            self@ matches Ok(p) ==> r@ matches Ok(p2) && {
                &&& p2.keybindings == p.keybindings
                &&& p2.on_connect_message == p.on_connect_message
                &&& p2.auto_pong == true
                &&& p2.log_incoming_messages == p.log_incoming_messages
            },
    {
        match self.parts {
            Err(e) => WebSocketSettingsBuilder { parts: Err(e) },
            Ok(p) => WebSocketSettingsBuilder {
                parts: Ok(
                    WebSocketSettingsParts {
                        keybindings: p.keybindings,
                        on_connect_message: p.on_connect_message,
                        auto_pong: true,
                        log_incoming_messages: p.log_incoming_messages,
                    },
                ),
            },
        }
    }

    /// Enables inbound logging; everything else is kept.
    pub fn log_incoming_messages(self) -> (r: Self)
        requires
            self.wf(),
        ensures
            r.wf(),
            self@ matches Err(_) ==> r@ == self@,
            self@ matches Ok(p) ==> r@ matches Ok(p2) && {
                &&& p2.keybindings == p.keybindings
                &&& p2.on_connect_message == p.on_connect_message
                &&& p2.auto_pong == p.auto_pong
                &&& p2.log_incoming_messages == true
            },
    {
        match self.parts {
            Err(e) => WebSocketSettingsBuilder { parts: Err(e) },
            Ok(p) => WebSocketSettingsBuilder {
                parts: Ok(
                    WebSocketSettingsParts {
                        keybindings: p.keybindings,
                        on_connect_message: p.on_connect_message,
                        auto_pong: p.auto_pong,
                        log_incoming_messages: true,
                    },
                ),
            },
        }
    }

    /// Finishes the build: the assembled settings, or the first error that
    /// poisoned the builder.
    pub fn build(self) -> (r: Result<WebSocketSettings, WebSocketSettingsError>)
        requires
            self.wf(),
        ensures
            self@ matches Ok(p) ==> r matches Ok(s) && s@ == p && s.wf(),
            self@ matches Err(e) ==> r matches Err(e2) && e2@ == e,
    {
        match self.parts {
            Err(e) => Err(e),
            Ok(p) => WebSocketSettings::from_parts(p),
        }
    }
}

impl WebSocketSettings {
    /// The keybinding table, if present, binds no key twice.
    pub open spec fn wf(self) -> bool {
        self@.wf()
    }

    /// Starts assembling settings from the defaults.
    pub fn builder() -> (r: WebSocketSettingsBuilder)
        ensures
            r.wf(),
            r@ == Ok::<WebSocketSettingsView, WebSocketSettingsErrorView>(
                WebSocketSettingsView::spec_default(),
            ),
    {
        WebSocketSettingsBuilder::new()
    }

    /// Adopts assembled parts as settings; every part is valid here.
    fn from_parts(src: WebSocketSettingsParts) -> (r: Result<
        WebSocketSettings,
        WebSocketSettingsError,
    >)
        ensures
            r matches Ok(s) && s@ == src@,
    {
        Ok(
            WebSocketSettings {
                keybindings: src.keybindings,
                on_connect_message: src.on_connect_message,
                auto_pong: src.auto_pong,
                log_incoming_messages: src.log_incoming_messages,
            },
        )
    }
}

impl Default for WebSocketSettings {
    /// The default settings: no table, no greeting, both flags off.
    fn default() -> (r: Self)
        ensures
            r@ == WebSocketSettingsView::spec_default(),
    {
        WebSocketSettings {
            keybindings: None,
            on_connect_message: None,
            auto_pong: false,
            log_incoming_messages: false,
        }
    }
}

} // verus!
