//! The minor pentatonic scale: the natural minor scale without its second
//! and sixth degrees, spanning the intervals 0, 3, 5, 7 and 10 semitones
//! from the root.

use vstd::prelude::*;

use crate::interval::Interval;
use crate::scale::ScalePattern;
use crate::scale::ScaleType;

verus! {

/// A marker type for minor pentatonic scales.
#[derive(Debug, Clone, Copy, PartialEq, Eq)]
pub struct PentatonicMinorScaleType;

impl ScaleType for PentatonicMinorScaleType {
    open spec fn spec_name() -> Seq<char> {
        "pentatonic minor"@
    }

    fn name() -> (r: &'static str) {
        "pentatonic minor"
    }
}

/// The interval pattern of a minor pentatonic scale.
#[derive(Debug, Clone, Copy, PartialEq, Eq)]
pub struct PentatonicMinorScalePattern;

impl ScalePattern for PentatonicMinorScalePattern {
    type ScaleTyp = PentatonicMinorScaleType;

    open spec fn spec_pattern() -> Seq<int> {
        seq![0, 3, 5, 7, 10]
    }

    fn pattern() -> (r: Vec<Interval>) {
        let mut pat: Vec<Interval> = Vec::new();
        pat.push(Interval::new(0));
        pat.push(Interval::new(3));
        pat.push(Interval::new(5));
        pat.push(Interval::new(7));
        pat.push(Interval::new(10));
        pat
    }
}

} // verus!
