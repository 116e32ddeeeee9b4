//! The keybinding table: a static mapping from a key to the message that
//! pressing the key produces. Two keys are reserved by the default table and
//! can never be rebound; rebinding any bound key is refused and leaves the
//! table unchanged.

use vstd::prelude::*;
use crate::common;
use crate::message::Message;
use crate::message::MessageView;

verus! {

/// A key identifier, as delivered by the terminal.
#[derive(Clone, Copy, Debug, PartialEq, Eq, Structural, Hash)]
pub enum Key {
    Backspace,
    Left,
    Right,
    Up,
    Down,
    Home,
    End,
    PageUp,
    PageDown,
    BackTab,
    Delete,
    Insert,
    F(u8),
    Char(char),
    Alt(char),
    Ctrl(char),
    Null,
    Esc,
}

/// Why a registration was refused.
#[derive(Clone, Copy, Debug, PartialEq, Eq, Structural)]
pub enum KeybindingError {
    /// The key is one of the two reserved trigger keys.
    ReservedKeyError,
    /// The key is already bound.
    DuplicateKeyError,
}

/// The two reserved keys: the close trigger and the ping trigger.
pub open spec fn spec_is_reserved(key: Key) -> bool {
    key == Key::Char('q') || key == Key::Char('p')
}

/// Whether the table value `s` binds `key`.
pub open spec fn seq_has_key(s: Seq<(Key, MessageView)>, key: Key) -> bool {
    exists|i: int| 0 <= i < s.len() && (#[trigger] s[i]).0 == key
}

/// The message that the table value `s` binds to `key`; meaningful only
/// when `seq_has_key` holds.
pub open spec fn seq_key_at(s: Seq<(Key, MessageView)>, key: Key) -> MessageView
    recommends
        seq_has_key(s, key),
{
    s[choose|i: int| 0 <= i < s.len() && (#[trigger] s[i]).0 == key].1
}

/// No key is bound twice in the table value `s`.
pub open spec fn seq_keys_unique(s: Seq<(Key, MessageView)>) -> bool {
    forall|i: int, j: int| 0 <= i < j < s.len() ==> (#[trigger] s[i]).0 != (#[trigger] s[j]).0
}

/// The default table value: the close trigger on `q`, the ping trigger on
/// `p`.
pub open spec fn spec_default_bindings() -> Seq<(Key, MessageView)> {
    seq![(Key::Char('q'), common::spec_close()), (Key::Char('p'), common::spec_ping())]
}

/// The keybinding table. Each entry pairs a key with the message its
/// zero-argument factory produces; the table is built once and then shared
/// read-only by every session.
pub struct Keybindings {
    bindings: Vec<(Key, Message)>,
}

impl View for Keybindings {
    type V = Seq<(Key, MessageView)>;

    /// The table as the sequence of its entries, in insertion order.
    closed spec fn view(&self) -> Seq<(Key, MessageView)> {
        self.bindings@.map_values(|p: (Key, Message)| (p.0, p.1@))
    }
}

impl Keybindings {
    /// No key is bound twice.
    pub open spec fn wf(self) -> bool {
        seq_keys_unique(self@)
    }

    /// Whether `key` is bound.
    pub open spec fn contains_key(self, key: Key) -> bool {
        seq_has_key(self@, key)
    }

    /// The message bound to `key`; meaningful only when `contains_key` holds.
    pub open spec fn spec_at(self, key: Key) -> MessageView
        recommends
            self.contains_key(key),
    {
        seq_key_at(self@, key)
    }

    /// The default table: the close trigger on `q` and the ping trigger on
    /// `p`, and nothing else.
    pub fn new() -> (r: Keybindings)
        ensures
            r.wf(),
            r@ =~= spec_default_bindings(),
            r.contains_key(Key::Char('q')) && r.spec_at(Key::Char('q')) == common::spec_close(),
            r.contains_key(Key::Char('p')) && r.spec_at(Key::Char('p')) == common::spec_ping(),
    {
        let mut bindings: Vec<(Key, Message)> = Vec::new();
        bindings.push((Key::Char('q'), common::close()));
        bindings.push((Key::Char('p'), common::ping()));
        let r = Keybindings { bindings };
        proof {
            assert(r@[0].0 == Key::Char('q') && r@[0].1 == common::spec_close());
            assert(r@[1].0 == Key::Char('p') && r@[1].1 == common::spec_ping());
        }
        r
    }

    /// Binds `key` to `message`. Fails with `ReservedKeyError` on a reserved
    /// key and with `DuplicateKeyError` on a key already bound; either
    /// failure leaves every existing binding unchanged. On success the one
    /// new binding is appended and no other entry moves.
    pub fn add(&mut self, key: Key, message: Message) -> (r: Result<(), KeybindingError>)
        requires
            old(self).wf(),
        ensures
            final(self).wf(),
            match r {
                Ok(()) => {
                    &&& !spec_is_reserved(key)
                    &&& !old(self).contains_key(key)
                    &&& final(self)@ == old(self)@.push((key, message@))
                },
                Err(KeybindingError::ReservedKeyError) => {
                    &&& spec_is_reserved(key)
                    &&& final(self)@ == old(self)@
                },
                Err(KeybindingError::DuplicateKeyError) => {
                    &&& !spec_is_reserved(key)
                    &&& old(self).contains_key(key)
                    &&& final(self)@ == old(self)@
                },
            },
    {
        if key == Key::Char('q') {
            return Err(KeybindingError::ReservedKeyError);
        }
        if key == Key::Char('p') {
            return Err(KeybindingError::ReservedKeyError);
        }
        let n = self.bindings.len();
        let mut i: usize = 0;
        while i < n
            invariant
                *self == *old(self),
                old(self).wf(),
                !spec_is_reserved(key),
                n == self.bindings@.len(),
                i <= n,
                forall|j: int| 0 <= j < i ==> (#[trigger] self@[j]).0 != key,
            decreases n - i,
        {
            if self.bindings[i].0 == key {
                proof {
                    assert((self@[i as int]).0 == key);
                }
                return Err(KeybindingError::DuplicateKeyError);
            }
            i += 1;
        }
        proof {
            assert(!self.contains_key(key));
        }
        let ghost before = self@;
        self.bindings.push((key, message));
        proof {
            assert(self@ =~= before.push((key, message@)));
            assert forall|a: int, b: int| 0 <= a < b < self@.len() implies (#[trigger] self@[a]).0
                != (#[trigger] self@[b]).0 by {
                if b == self@.len() - 1 {
                    assert((before[a]).0 != key);
                }
            }
        }
        Ok(())
    }

    /// Looks `key` up: the bound message if any, else unbound (not an
    /// error).
    pub fn at(&self, key: Key) -> (r: Option<&Message>)
        requires
            self.wf(),
        ensures
            match r {
                Some(m) => self.contains_key(key) && m@ == self.spec_at(key),
                None => !self.contains_key(key),
            },
    {
        let n = self.bindings.len();
        let mut i: usize = 0;
        while i < n
            invariant
                n == self.bindings@.len(),
                i <= n,
                self.wf(),
                forall|j: int| 0 <= j < i ==> (#[trigger] self@[j]).0 != key,
            decreases n - i,
        {
            if self.bindings[i].0 == key {
                proof {
                    assert((self@[i as int]).0 == key);
                    let idx = choose|j: int|
                        0 <= j < self@.len() && (#[trigger] self@[j]).0 == key;
                    if idx < i as int {
                        assert((self@[idx]).0 != (self@[i as int]).0);
                    } else if idx > i as int {
                        assert((self@[i as int]).0 != (self@[idx]).0);
                    }
                    assert(self.spec_at(key) == (self@[i as int]).1);
                }
                return Some(&self.bindings[i].1);
            }
            i += 1;
        }
        None
    }
}

} // verus!
