use core::marker::PhantomData;
use vstd::prelude::*;

use crate::interval::Interval;
use crate::pitch::pitch_str;
use crate::pitch::transposed;
use crate::pitch::Pitch;

verus! {

/// A kind of musical scale (major, blues, ...), carrying only its display
/// name. Implement this for a marker type to tag scales with their kind.
pub trait ScaleType {
    /// The kind's name as a sequence of characters.
    spec fn spec_name() -> Seq<char>;

    /// Returns the name of this scale kind.
    fn name() -> (r: &'static str)
        ensures
            r@ == Self::spec_name(),
    ;
}

/// A scale pattern: a fixed, ordered sequence of intervals measured from
/// the root, bound to a scale kind. The pattern is fixed at definition
/// time; applying it to a root pitch produces the scale's pitches in
/// pattern order.
pub trait ScalePattern {
    /// The kind of scale this pattern produces.
    type ScaleTyp: ScaleType;

    /// The pattern's interval sizes, in semitones from the root.
    spec fn spec_pattern() -> Seq<int>;

    /// Returns the interval pattern that defines this scale kind.
    fn pattern() -> (r: Vec<Interval>)
        ensures
            r@.len() == Self::spec_pattern().len(),
            forall|k: int| 0 <= k < r@.len() ==> r@[k]@ == Self::spec_pattern()[k],
    ;

    /// Applies this pattern to a root pitch, producing one pitch per
    /// pattern entry, in pattern order, each the root transposed by the
    /// corresponding interval.
    fn apply(root: Pitch) -> (s: Scale<Self::ScaleTyp>)
        requires
            forall|k: int|
                0 <= k < Self::spec_pattern().len() ==> transposed(
                    root@,
                    Self::spec_pattern()[k],
                ) <= u8::MAX,
        ensures
            s@.len() == Self::spec_pattern().len(),
            forall|k: int|
                0 <= k < s@.len() ==> s@[k]@ == transposed(root@, Self::spec_pattern()[k]),
    {
        let pat = Self::pattern();
        assert forall|k: int| 0 <= k < pat@.len() implies transposed(root@, pat@[k]@)
            <= u8::MAX by {
            assert(pat@[k]@ == Self::spec_pattern()[k]);
        }
        let pitches = root.apply_pattern(pat.as_slice());
        Scale::new(pitches)
    }
}

/// A musical scale: the ordered pitches produced by applying a pattern to
/// a root, tagged with the scale kind that produced them. The first pitch
/// is the root.
pub struct Scale<S: ScaleType> {
    pitches: Vec<Pitch>,
    typ: PhantomData<S>,
}

impl<S: ScaleType> View for Scale<S> {
    type V = Seq<Pitch>;

    closed spec fn view(&self) -> Seq<Pitch> {
        self.pitches@
    }
}

impl<S: ScaleType> Scale<S> {
    /// Creates a scale from its pitches, in order.
    pub fn new(pitches: Vec<Pitch>) -> (s: Self)
        ensures
            s@ == pitches@,
    {
        Scale { pitches, typ: PhantomData }
    }

    /// Returns the pitches of the scale, in pattern order.
    pub fn pitches(&self) -> (r: &[Pitch])
        ensures
            r@ == self@,
    {
        self.pitches.as_slice()
    }

    /// Returns the root of the scale: its first pitch.
    pub fn root(&self) -> (r: Pitch)
        requires
            self@.len() > 0,
        ensures
            r == self@[0],
    {
        self.pitches[0]
    }

    /// Returns the name of the scale's kind.
    pub fn name(&self) -> (r: &'static str)
        ensures
            r@ == S::spec_name(),
    {
        S::name()
    }

    /// Returns the human-readable form of this scale: the root pitch
    /// followed by the kind's name, separated by a space.
    pub fn to_string(&self) -> (r: String)
        requires
            self@.len() > 0,
        ensures
            r@ == pitch_str(self@[0]@) + " "@ + S::spec_name(),
    {
        self.root().to_string().concat(" ").concat(S::name())
    }
}

} // verus!
