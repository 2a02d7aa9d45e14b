use vstd::prelude::*;

use crate::interval::Interval;

verus! {

/// A kind of musical chord (major triad, minor triad, ...). Implement this
/// for a marker type to tag chord patterns with their kind.
pub trait ChordType {
}

/// A chord pattern: a fixed, ordered sequence of intervals measured from
/// the root, bound to a chord kind. As with scale patterns, the pattern is
/// fixed at definition time; the chord's pitches are the root transposed
/// by each interval in turn (see [`crate::Pitch::apply_pattern`]).
pub trait ChordPattern {
    /// The kind of chord this pattern produces.
    type ChordTyp: ChordType;

    /// The pattern's interval sizes, in semitones from the root.
    spec fn spec_pattern() -> Seq<int>;

    /// Returns the interval pattern that defines this chord kind.
    fn pattern() -> (r: Vec<Interval>)
        ensures
            r@.len() == Self::spec_pattern().len(),
            forall|k: int| 0 <= k < r@.len() ==> r@[k]@ == Self::spec_pattern()[k],
    ;
}

} // verus!
