//! The keyboard latch: one slot for the key pressed last and not yet read.

use vstd::prelude::*;

verus! {

/// Holds at most one pending key code. A key that arrives replaces the one
/// that waits; a read takes the key away.
pub struct HexKeyboard {
    latch: Option<u8>,
}

impl View for HexKeyboard {
    type V = Option<u8>;

    closed spec fn view(&self) -> Option<u8> {
        self.latch
    }
}

impl HexKeyboard {
    /// A pending key is one of the sixteen hexadecimal keys.
    pub open spec fn wf(&self) -> bool {
        self@ matches Some(k) ==> k <= 15
    }

    /// An empty latch.
    pub fn new() -> (keyboard: Self)
        ensures
            keyboard@ is None,
            keyboard.wf(),
    {
        Self { latch: None }
    }

    /// Latches key `k`, whatever was pending before.
    pub fn push(&mut self, k: u8)
        requires
            k <= 15,
        ensures
            final(self)@ == Some(k),
            final(self).wf(),
    {
        self.latch = Some(k);
    }

    /// Latches "no key", as a host does when the key is released.
    pub fn release(&mut self)
        ensures
            final(self)@ is None,
            final(self).wf(),
    {
        self.latch = None;
    }

    /// Takes the pending key, if there is one, and leaves the latch empty.
    pub fn consume(&mut self) -> (key: Option<u8>)
        ensures
            key == old(self)@,
            final(self)@ is None,
            final(self).wf(),
    {
        let key = self.latch;
        self.latch = None;
        key
    }
}

} // verus!
