//! The harmonic minor scale: the step pattern W H W W H WH H, spanning the
//! intervals 0, 2, 3, 5, 7, 8 and 11 semitones from the root.

use vstd::prelude::*;

use crate::interval::Interval;
use crate::scale::ScalePattern;
use crate::scale::ScaleType;

verus! {

/// A marker type for harmonic minor scales.
#[derive(Debug, Clone, Copy, PartialEq, Eq)]
pub struct HarmonicMinorScaleType;

impl ScaleType for HarmonicMinorScaleType {
    open spec fn spec_name() -> Seq<char> {
        "harmonic minor"@
    }

    fn name() -> (r: &'static str) {
        "harmonic minor"
    }
}

/// The interval pattern of a harmonic minor scale.
#[derive(Debug, Clone, Copy, PartialEq, Eq)]
pub struct HarmonicMinorScalePattern;

impl ScalePattern for HarmonicMinorScalePattern {
    type ScaleTyp = HarmonicMinorScaleType;

    open spec fn spec_pattern() -> Seq<int> {
        seq![0, 2, 3, 5, 7, 8, 11]
    }

    fn pattern() -> (r: Vec<Interval>) {
        let mut pat: Vec<Interval> = Vec::new();
        pat.push(Interval::new(0));
        pat.push(Interval::new(2));
        pat.push(Interval::new(3));
        pat.push(Interval::new(5));
        pat.push(Interval::new(7));
        pat.push(Interval::new(8));
        pat.push(Interval::new(11));
        pat
    }
}

} // verus!
