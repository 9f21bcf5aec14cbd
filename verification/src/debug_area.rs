//! The debug area of the client user interface: a bounded list of messages,
//! and the three-key chord (Control, Alt, Semicolon) that hides and reveals
//! it. Drawing is the host program's concern.

use crate::keymap::VirtualKeyCode;
use vstd::prelude::*;

verus! {

/// Mathematical view of the debug area.
pub struct DebugAreaView {
    pub debug_messages: Seq<Seq<char>>,
    pub msg_limit: int,
    pub disable_modifiers: (bool, bool, bool),
}

impl DebugAreaView {
    /// The message list never outgrows its limit; a limit of zero still
    /// leaves room for the one newest message.
    pub open spec fn wf(self) -> bool {
        self.debug_messages.len() <= if self.msg_limit >= 1 {
            self.msg_limit
        } else {
            1int
        }
    }
}

/// What pushing a message does: the oldest messages survive, the newest
/// slots are freed until the limit leaves room, then the message goes on
/// the end. A limit of zero evicts everything and keeps only the new
/// message.
pub open spec fn spec_push_message(s: Seq<Seq<char>>, limit: int, m: Seq<char>) -> Seq<Seq<char>> {
    if s.len() < limit {
        s.push(m)
    } else {
        s.take(
            if limit >= 1 {
                limit - 1
            } else {
                0
            },
        ).push(m)
    }
}

/// What one keyboard event does to the hide chord's state: Control arms the
/// first flag, then Alt the second, then Semicolon the third; once all three
/// are set the same chord clears them one by one; any other key resets an
/// unfinished chord.
pub open spec fn spec_modifier_update(
    dm: (bool, bool, bool),
    key: Option<VirtualKeyCode>,
    pressed: bool,
) -> (bool, bool, bool) {
    let all = dm == (true, true, true);
    if pressed && (key == Some(VirtualKeyCode::LControl) || key == Some(
        VirtualKeyCode::RControl,
    )) {
        (!all, dm.1, dm.2)
    } else if pressed && dm.0 && (key == Some(VirtualKeyCode::LAlt) || key == Some(
        VirtualKeyCode::RAlt,
    )) {
        (dm.0, !all, dm.2)
    } else if pressed && dm.1 && key == Some(VirtualKeyCode::Semicolon) {
        (dm.0, dm.1, !all)
    } else if all {
        (true, true, true)
    } else {
        (false, false, false)
    }
}

/// A bounded list of debug messages shown to the user.
pub struct DebugArea {
    debug_messages: Vec<String>,
    msg_limit: usize,
    disable_modifiers: (bool, bool, bool),
}

impl View for DebugArea {
    type V = DebugAreaView;

    closed spec fn view(&self) -> DebugAreaView {
        DebugAreaView {
            debug_messages: self.debug_messages.deep_view(),
            msg_limit: self.msg_limit as int,
            disable_modifiers: self.disable_modifiers,
        }
    }
}

impl DebugArea {
    /// An empty debug area keeping at most `msg_limit` messages.
    pub fn new(msg_limit: usize) -> (r: DebugArea)
        ensures
            r@.debug_messages.len() == 0,
            r@.msg_limit == msg_limit,
            r@.disable_modifiers == (false, false, false),
            r@.wf(),
    {
        let r = DebugArea {
            debug_messages: Vec::new(),
            msg_limit,
            disable_modifiers: (false, false, false),
        };
        proof {
            assert(r@.debug_messages =~= Seq::<Seq<char>>::empty());
        }
        r
    }

    /// Append a message, dropping the newest entries if the area is full.
    pub fn push(&mut self, msg: &str)
        requires
            old(self)@.wf(),
        ensures
            final(self)@.wf(),
            final(self)@.debug_messages == spec_push_message(
                old(self)@.debug_messages,
                old(self)@.msg_limit,
                msg@,
            ),
            final(self)@.msg_limit == old(self)@.msg_limit,
            final(self)@.disable_modifiers == old(self)@.disable_modifiers,
    {
        let ghost orig = self.debug_messages.deep_view();
        let ghost limit0 = self.msg_limit;
        let ghost dm0 = self.disable_modifiers;
        proof {
            assert(orig.take(orig.len() as int) =~= orig);
        }
        while self.msg_limit <= self.debug_messages.len() && self.debug_messages.len() > 0
            invariant
                self.msg_limit == limit0,
                self.disable_modifiers == dm0,
                self.debug_messages.deep_view() == orig.take(self.debug_messages@.len() as int),
                self.debug_messages@.len() <= orig.len(),
                self.debug_messages@.len() == orig.len() || self.debug_messages@.len()
                    >= self.msg_limit - 1,
            decreases self.debug_messages@.len(),
        {
            let ghost pre_vec = self.debug_messages@;
            let ghost pre_dv = self.debug_messages.deep_view();
            self.debug_messages.pop();
            proof {
                let n = self.debug_messages@.len() as int;
                assert forall|j: int| 0 <= j < n implies self.debug_messages.deep_view()[j]
                    == orig.take(n)[j] by {
                    assert(self.debug_messages.deep_view()[j] == self.debug_messages@[
                        j
                    ].deep_view());
                    assert(self.debug_messages@[j] == pre_vec[j]);
                    assert(pre_dv[j] == orig.take(pre_vec.len() as int)[j]);
                }
                assert(self.debug_messages.deep_view() =~= orig.take(n));
            }
        }
        let ghost kept_vec = self.debug_messages@;
        let ghost kept_dv = self.debug_messages.deep_view();
        let owned = msg.to_owned();
        self.debug_messages.push(owned);
        proof {
            let res = spec_push_message(orig, self.msg_limit as int, msg@);
            let n = self.debug_messages@.len() as int;
            assert(res.len() == n);
            assert forall|j: int| 0 <= j < n implies self.debug_messages.deep_view()[j]
                == res[j] by {
                assert(self.debug_messages.deep_view()[j] == self.debug_messages@[j].deep_view());
                if j < n - 1 {
                    assert(self.debug_messages@[j] == kept_vec[j]);
                    assert(kept_dv[j] == orig.take(kept_vec.len() as int)[j]);
                } else {
                    assert(self.debug_messages@[j] == owned);
                }
            }
            assert(self.debug_messages.deep_view() =~= res);
        }
    }

    /// How many messages are held.
    pub fn len(&self) -> (r: usize)
        ensures
            r == self@.debug_messages.len(),
    {
        self.debug_messages.len()
    }

    /// The message at `i`, oldest first.
    pub fn message_at(&self, i: usize) -> (r: &String)
        requires
            i < self@.debug_messages.len(),
        ensures
            r@ == self@.debug_messages[i as int],
    {
        &self.debug_messages[i]
    }

    /// Whether the chord has hidden the debug area.
    pub fn hidden(&self) -> (r: bool)
        ensures
            r == (self@.disable_modifiers == (true, true, true)),
    {
        self.disable_modifiers.0 && self.disable_modifiers.1 && self.disable_modifiers.2
    }

    /// Advance the hide chord on one keyboard event.
    pub fn handle_window_event(&mut self, key: Option<VirtualKeyCode>, pressed: bool)
        ensures
            final(self)@ == (DebugAreaView {
                disable_modifiers: spec_modifier_update(
                    old(self)@.disable_modifiers,
                    key,
                    pressed,
                ),
                ..old(self)@
            }),
    {
        let dm = self.disable_modifiers;
        let all = dm.0 && dm.1 && dm.2;
        let is_ctrl = match key {
            Some(VirtualKeyCode::LControl) | Some(VirtualKeyCode::RControl) => true,
            _ => false,
        };
        let is_alt = match key {
            Some(VirtualKeyCode::LAlt) | Some(VirtualKeyCode::RAlt) => true,
            _ => false,
        };
        let is_semicolon = match key {
            Some(VirtualKeyCode::Semicolon) => true,
            _ => false,
        };
        if pressed && is_ctrl {
            self.disable_modifiers = (!all, dm.1, dm.2);
        } else if pressed && dm.0 && is_alt {
            self.disable_modifiers = (dm.0, !all, dm.2);
        } else if pressed && dm.1 && is_semicolon {
            self.disable_modifiers = (dm.0, dm.1, !all);
        } else if all {
            self.disable_modifiers = (true, true, true);
        } else {
            self.disable_modifiers = (false, false, false);
        }
    }
}

} // verus!
