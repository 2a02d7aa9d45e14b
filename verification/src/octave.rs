use vstd::prelude::*;

use crate::display::decimal_i32;
use crate::display::decimal_str;
use crate::pitch::at_octave;
use crate::pitch::canonical_semitones;
use crate::pitch::is_pitch_class;
use crate::pitch::Pitch;
use crate::pitch::SEMITONES_PER_OCTAVE;

verus! {

/// A musical octave: a register band of twelve semitones, indexed from -1
/// (the lowest, which holds the bare pitch classes) through 9 (the highest).
/// The index -1 marks the canonical, pitch-class-only slot.
#[derive(Debug, Clone, Copy, PartialEq, Eq, PartialOrd, Ord, Structural)]
pub struct Octave(i8);

impl View for Octave {
    type V = int;

    closed spec fn view(&self) -> int {
        self.0 as int
    }
}

impl Octave {
    /// Creates an octave with the given index.
    pub(crate) fn new(value: i8) -> (r: Self)
        ensures
            r@ == value as int,
    {
        Octave(value)
    }

    /// Returns the index of this octave.
    pub fn value(&self) -> (r: i8)
        ensures
            r as int == self@,
    {
        self.0
    }

    /// Returns whether this octave is the canonical, pitch-class-only slot
    /// (a negative index).
    pub fn is_canonical(&self) -> (r: bool)
        ensures
            r == (self@ < 0),
    {
        self.0 < 0
    }

    /// Moves the given pitch into this octave, keeping its pitch class.
    pub fn update_octave(self, pitch: Pitch) -> (r: Pitch)
        requires
            self@ >= -1,
            canonical_semitones(pitch@) + (self@ + 1) * (SEMITONES_PER_OCTAVE as int) <= u8::MAX,
        ensures
            r@ == at_octave(pitch@, self@),
    {
        pitch.with_octave(self)
    }

    /// Combines a canonical (pitch-class-only) pitch with this octave into
    /// an absolute pitch.
    pub fn to_pitch(self, canonical: Pitch) -> (r: Pitch)
        requires
            is_pitch_class(canonical@),
            self@ >= -1,
            canonical_semitones(canonical@) + (self@ + 1) * (SEMITONES_PER_OCTAVE as int)
                <= u8::MAX,
        ensures
            r@ == at_octave(canonical@, self@),
    {
        canonical.with_octave(self)
    }

    /// Returns the human-readable form of this octave: its index as a
    /// decimal numeral.
    pub fn to_string(&self) -> (r: String)
        ensures
            r@ == decimal_str(self@),
    {
        decimal_i32(self.0 as i32)
    }
}

} // verus!
