//! The library's general laws, stated over the spec-level pitch model and
//! proved once for all representable values.

use vstd::prelude::*;

use vstd::arithmetic::div_mod::lemma_mod_multiples_vanish;
use vstd::arithmetic::div_mod::lemma_mod_twice;

use crate::interval::Interval;
use crate::octave::Octave;
use crate::pitch::at_octave;
use crate::pitch::canonical_semitones;
use crate::pitch::is_pitch_class;
use crate::pitch::lemma_pitch_range;
use crate::pitch::octave_index;
use crate::pitch::transposed;
use crate::pitch::Pitch;
use crate::pitch::SEMITONES_PER_OCTAVE;

verus! {

/// Canonicalizing any representable pitch yields a pitch class: the result
/// is canonical, equals the semitone count modulo twelve, and canonicalizing
/// it again changes nothing.
pub proof fn lemma_canonical_round_trip(p: Pitch)
    ensures
        is_pitch_class(canonical_semitones(p@)),
        canonical_semitones(p@) == p@ % (SEMITONES_PER_OCTAVE as int),
        canonical_semitones(canonical_semitones(p@)) == canonical_semitones(p@),
{
    lemma_pitch_range(p);
    lemma_mod_twice(p@, SEMITONES_PER_OCTAVE as int);
}

/// A pitch's octave is consistent with its semitone count: the octave
/// index is the semitone count divided by twelve, less one.
pub proof fn lemma_octave_semitone_consistency(p: Pitch)
    ensures
        octave_index(p@) == p@ / (SEMITONES_PER_OCTAVE as int) - 1,
{
}

/// Transposing by two intervals commutes: as long as neither order
/// overflows the representable range, the result is the same pitch.
pub proof fn lemma_transpose_commutative(p: Pitch, i1: Interval, i2: Interval)
    requires
        transposed(transposed(p@, i1@), i2@) <= u8::MAX,
    ensures
        transposed(transposed(p@, i1@), i2@) == transposed(transposed(p@, i2@), i1@),
{
}

/// Transposing by two intervals in turn equals transposing once by an
/// interval spanning the sum of their semitone counts.
pub proof fn lemma_transpose_additive(p: Pitch, i1: Interval, i2: Interval)
    requires
        transposed(transposed(p@, i1@), i2@) <= u8::MAX,
    ensures
        transposed(transposed(p@, i1@), i2@) == transposed(p@, i1@ + i2@),
{
}

/// Moving a pitch to any octave keeps its pitch class: the canonical form
/// of the re-registered pitch equals the canonical form of the original.
pub proof fn lemma_with_octave_keeps_class(p: Pitch, o: Octave)
    ensures
        canonical_semitones(at_octave(p@, o@)) == canonical_semitones(p@),
{
    let m = SEMITONES_PER_OCTAVE as int;
    lemma_mod_multiples_vanish(o@ + 1, p@ % m, m);
    lemma_mod_twice(p@, m);
}

} // verus!
