use vstd::prelude::*;

verus! {

/// A musical note, identified by a MIDI-style pitch number. Unlike
/// [`crate::Pitch`], a note validates its range on construction: the pitch
/// number must lie between 0 and 127.
#[derive(Debug, Clone, Copy, PartialEq, Eq, Structural)]
pub struct Note {
    pitch: u8,
}

impl View for Note {
    type V = int;

    closed spec fn view(&self) -> int {
        self.pitch as int
    }
}

impl Note {
    /// Creates a note with the given pitch number, which must lie between
    /// 0 and 127.
    pub fn new(pitch: u8) -> (r: Self)
        requires
            pitch <= 127,
        ensures
            r@ == pitch as int,
    {
        Note { pitch }
    }
}

} // verus!
