//! The major pentatonic scale: the major scale without its fourth and
//! seventh degrees, spanning the intervals 0, 2, 4, 7 and 9 semitones from
//! the root.

use vstd::prelude::*;

use crate::interval::Interval;
use crate::scale::ScalePattern;
use crate::scale::ScaleType;

verus! {

/// A marker type for major pentatonic scales.
#[derive(Debug, Clone, Copy, PartialEq, Eq)]
pub struct PentatonicMajorScaleType;

impl ScaleType for PentatonicMajorScaleType {
    open spec fn spec_name() -> Seq<char> {
        "pentatonic major"@
    }

    fn name() -> (r: &'static str) {
        "pentatonic major"
    }
}

/// The interval pattern of a major pentatonic scale.
#[derive(Debug, Clone, Copy, PartialEq, Eq)]
pub struct PentatonicMajorScalePattern;

impl ScalePattern for PentatonicMajorScalePattern {
    type ScaleTyp = PentatonicMajorScaleType;

    open spec fn spec_pattern() -> Seq<int> {
        seq![0, 2, 4, 7, 9]
    }

    fn pattern() -> (r: Vec<Interval>) {
        let mut pat: Vec<Interval> = Vec::new();
        pat.push(Interval::new(0));
        pat.push(Interval::new(2));
        pat.push(Interval::new(4));
        pat.push(Interval::new(7));
        pat.push(Interval::new(9));
        pat
    }
}

} // verus!
