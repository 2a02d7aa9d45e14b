//! The natural minor scale: the step pattern W H W W H W W, spanning the
//! intervals 0, 2, 3, 5, 7, 8 and 10 semitones from the root.

use vstd::prelude::*;

use crate::interval::Interval;
use crate::scale::ScalePattern;
use crate::scale::ScaleType;

verus! {

/// A marker type for natural minor scales.
#[derive(Debug, Clone, Copy, PartialEq, Eq)]
pub struct NaturalMinorScaleType;

impl ScaleType for NaturalMinorScaleType {
    open spec fn spec_name() -> Seq<char> {
        "natural minor"@
    }

    fn name() -> (r: &'static str) {
        "natural minor"
    }
}

/// The interval pattern of a natural minor scale.
#[derive(Debug, Clone, Copy, PartialEq, Eq)]
pub struct NaturalMinorScalePattern;

impl ScalePattern for NaturalMinorScalePattern {
    type ScaleTyp = NaturalMinorScaleType;

    open spec fn spec_pattern() -> Seq<int> {
        seq![0, 2, 3, 5, 7, 8, 10]
    }

    fn pattern() -> (r: Vec<Interval>) {
        let mut pat: Vec<Interval> = Vec::new();
        pat.push(Interval::new(0));
        pat.push(Interval::new(2));
        pat.push(Interval::new(3));
        pat.push(Interval::new(5));
        pat.push(Interval::new(7));
        pat.push(Interval::new(8));
        pat.push(Interval::new(10));
        pat
    }
}

} // verus!
