use vstd::prelude::*;

verus! {

/// A musical interval: the distance between two pitches, counted in
/// semitones. An interval carries no validity constraint beyond fitting
/// in a byte; callers are responsible for staying within the
/// representable pitch range when transposing.
#[derive(Debug, Clone, Copy, PartialEq, Eq, Structural)]
pub struct Interval(u8);

impl View for Interval {
    type V = int;

    closed spec fn view(&self) -> int {
        self.0 as int
    }
}

impl Interval {
    /// Creates an interval spanning the given number of semitones.
    pub fn new(semitones: u8) -> (r: Self)
        ensures
            r@ == semitones as int,
    {
        Interval(semitones)
    }

    /// Returns the number of semitones this interval spans.
    pub fn semitones(&self) -> (r: u8)
        ensures
            r as int == self@,
    {
        self.0
    }
}

} // verus!
