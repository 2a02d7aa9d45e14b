//! The melodic minor scale, ascending form: the step pattern W H W W W W H,
//! spanning the intervals 0, 2, 3, 5, 7, 9 and 11 semitones from the root.

use vstd::prelude::*;

use crate::interval::Interval;
use crate::scale::ScalePattern;
use crate::scale::ScaleType;

verus! {

/// A marker type for melodic minor scales.
#[derive(Debug, Clone, Copy, PartialEq, Eq)]
pub struct MelodicMinorScaleType;

impl ScaleType for MelodicMinorScaleType {
    open spec fn spec_name() -> Seq<char> {
        "melodic minor"@
    }

    fn name() -> (r: &'static str) {
        "melodic minor"
    }
}

/// The interval pattern of a melodic minor scale (ascending form).
#[derive(Debug, Clone, Copy, PartialEq, Eq)]
pub struct MelodicMinorScalePattern;

impl ScalePattern for MelodicMinorScalePattern {
    type ScaleTyp = MelodicMinorScaleType;

    open spec fn spec_pattern() -> Seq<int> {
        seq![0, 2, 3, 5, 7, 9, 11]
    }

    fn pattern() -> (r: Vec<Interval>) {
        let mut pat: Vec<Interval> = Vec::new();
        pat.push(Interval::new(0));
        pat.push(Interval::new(2));
        pat.push(Interval::new(3));
        pat.push(Interval::new(5));
        pat.push(Interval::new(7));
        pat.push(Interval::new(9));
        pat.push(Interval::new(11));
        pat
    }
}

} // verus!
