//! Interaction state: the current key-interpretation mode and the live
//! search query, together with the key-event state machine that mutates them.

use vstd::prelude::*;

verus! {

/// The key-interpretation context: either plain viewing, or live search.
#[derive(Debug, Copy, Clone, PartialEq, Eq, Structural)]
pub enum Mode {
    Normal,
    Search,
}

/// A key event, as the state machine reads it. Keys the machine does not
/// care about arrive as `Other`.
#[derive(Debug, Copy, Clone, PartialEq, Eq, Structural)]
pub enum Key {
    Char(char),
    Ctrl(char),
    Backspace,
    Esc,
    Other,
}

/// The shared interactive state: current mode and in-progress query.
pub struct State {
    pub mode: Mode,
    pub query: Vec<char>,
}

/// The interrupt key: the sole cancellation trigger.
pub open spec fn is_interrupt(key: Key) -> bool {
    key == Key::Ctrl('c')
}

/// The state machine's transition function: what (mode, query) results
/// from handling `key` in state (`mode`, `query`).
pub open spec fn spec_process_key(mode: Mode, query: Seq<char>, key: Key) -> (Mode, Seq<char>) {
    match (mode, key) {
        (Mode::Normal, Key::Char(c)) => if c == '/' {
            (Mode::Search, query)
        } else {
            (mode, query)
        },
        (Mode::Search, Key::Char(c)) => if c == '\n' {
            (mode, query)
        } else {
            (mode, query.push(c))
        },
        (Mode::Search, Key::Backspace) => if query.len() == 0 {
            (mode, query)
        } else {
            (mode, query.drop_last())
        },
        (Mode::Search, Key::Esc) => (Mode::Normal, Seq::empty()),
        _ => (mode, query),
    }
}

impl State {
    /// The standing invariant: outside Search mode the query is empty.
    pub open spec fn wf(self) -> bool {
        self.mode == Mode::Normal ==> self.query@.len() == 0
    }

    /// Fresh state: Normal mode, empty query.
    pub fn new() -> (s: State)
        ensures
            s.mode == Mode::Normal,
            s.query@ == Seq::<char>::empty(),
            s.wf(),
    {
        State { mode: Mode::Normal, query: Vec::new() }
    }

    /// Handle one key event. Never fails: unrecognized keys, and the
    /// interrupt key (which the pump reacts to before the state machine
    /// sees it), leave the state unchanged.
    pub fn process_key(&mut self, key: Key)
        requires
            old(self).wf(),
        ensures
            (final(self).mode, final(self).query@) == spec_process_key(
                old(self).mode,
                old(self).query@,
                key,
            ),
            final(self).wf(),
    {
        match (self.mode, key) {
            (Mode::Normal, Key::Char(c)) => {
                if c == '/' {
                    self.mode = Mode::Search;
                }
            },
            (Mode::Search, Key::Char(c)) => {
                if c != '\n' {
                    self.query.push(c);
                }
            },
            (Mode::Search, Key::Backspace) => {
                if self.query.len() > 0 {
                    self.query.pop();
                }
            },
            (Mode::Search, Key::Esc) => {
                self.mode = Mode::Normal;
                self.query = Vec::new();
            },
            _ => {},
        }
    }
}

} // verus!
