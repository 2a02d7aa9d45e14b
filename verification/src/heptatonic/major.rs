//! The major scale: the pattern of whole and half steps W W H W W W H,
//! spanning the intervals 0, 2, 4, 5, 7, 9 and 11 semitones from the root.

use vstd::prelude::*;

use crate::interval::Interval;
use crate::scale::ScalePattern;
use crate::scale::ScaleType;

verus! {

/// A marker type for major scales.
#[derive(Debug, Clone, Copy, PartialEq, Eq)]
pub struct MajorScaleType;

impl ScaleType for MajorScaleType {
    open spec fn spec_name() -> Seq<char> {
        "major"@
    }

    fn name() -> (r: &'static str) {
        "major"
    }
}

/// The interval pattern of a major scale.
#[derive(Debug, Clone, Copy, PartialEq, Eq)]
pub struct MajorScalePattern;

impl ScalePattern for MajorScalePattern {
    type ScaleTyp = MajorScaleType;

    open spec fn spec_pattern() -> Seq<int> {
        seq![0, 2, 4, 5, 7, 9, 11]
    }

    fn pattern() -> (r: Vec<Interval>) {
        let mut pat: Vec<Interval> = Vec::new();
        pat.push(Interval::new(0));
        pat.push(Interval::new(2));
        pat.push(Interval::new(4));
        pat.push(Interval::new(5));
        pat.push(Interval::new(7));
        pat.push(Interval::new(9));
        pat.push(Interval::new(11));
        pat
    }
}

} // verus!
