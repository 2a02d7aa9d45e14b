//! The harmonic major scale: the step pattern W W H W H WH H, spanning the
//! intervals 0, 2, 4, 5, 7, 8 and 11 semitones from the root.

use vstd::prelude::*;

use crate::interval::Interval;
use crate::scale::ScalePattern;
use crate::scale::ScaleType;

verus! {

/// A marker type for harmonic major scales.
#[derive(Debug, Clone, Copy, PartialEq, Eq)]
pub struct HarmonicMajorScaleType;

impl ScaleType for HarmonicMajorScaleType {
    open spec fn spec_name() -> Seq<char> {
        "harmonic major"@
    }

    fn name() -> (r: &'static str) {
        "harmonic major"
    }
}

/// The interval pattern of a harmonic major scale.
#[derive(Debug, Clone, Copy, PartialEq, Eq)]
pub struct HarmonicMajorScalePattern;

impl ScalePattern for HarmonicMajorScalePattern {
    type ScaleTyp = HarmonicMajorScaleType;

    open spec fn spec_pattern() -> Seq<int> {
        seq![0, 2, 4, 5, 7, 8, 11]
    }

    fn pattern() -> (r: Vec<Interval>) {
        let mut pat: Vec<Interval> = Vec::new();
        pat.push(Interval::new(0));
        pat.push(Interval::new(2));
        pat.push(Interval::new(4));
        pat.push(Interval::new(5));
        pat.push(Interval::new(7));
        pat.push(Interval::new(8));
        pat.push(Interval::new(11));
        pat
    }
}

} // verus!
