//! The blues scale: a minor pentatonic scale with an added flattened fifth,
//! spanning the intervals 0, 3, 5, 6, 7 and 10 semitones from the root.

use vstd::prelude::*;

use crate::interval::Interval;
use crate::scale::ScalePattern;
use crate::scale::ScaleType;

verus! {

/// A marker type for blues scales.
#[derive(Debug, Clone, Copy, PartialEq, Eq)]
pub struct BluesScaleType;

impl ScaleType for BluesScaleType {
    open spec fn spec_name() -> Seq<char> {
        "blues"@
    }

    fn name() -> (r: &'static str) {
        "blues"
    }
}

/// The interval pattern of a blues scale.
#[derive(Debug, Clone, Copy, PartialEq, Eq)]
pub struct BluesScalePattern;

impl ScalePattern for BluesScalePattern {
    type ScaleTyp = BluesScaleType;

    open spec fn spec_pattern() -> Seq<int> {
        seq![0, 3, 5, 6, 7, 10]
    }

    fn pattern() -> (r: Vec<Interval>) {
        let mut pat: Vec<Interval> = Vec::new();
        pat.push(Interval::new(0));
        pat.push(Interval::new(3));
        pat.push(Interval::new(5));
        pat.push(Interval::new(6));
        pat.push(Interval::new(7));
        pat.push(Interval::new(10));
        pat
    }
}

} // verus!
