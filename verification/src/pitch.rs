use vstd::prelude::*;

use crate::display::decimal_str;
use crate::interval::Interval;
use crate::octave::Octave;

verus! {

/// The number of semitones in one octave.
pub const SEMITONES_PER_OCTAVE: u8 = 12;

/// The semitone count of a pitch reduced to its pitch class: the position
/// within one octave, independent of register.
pub open spec fn canonical_semitones(s: int) -> int {
    s % (SEMITONES_PER_OCTAVE as int)
}

/// Whether a semitone count is a bare pitch class (no octave component).
pub open spec fn is_pitch_class(s: int) -> bool {
    s < SEMITONES_PER_OCTAVE as int
}

/// The octave index of a pitch with the given semitone count: the lowest
/// twelve semitones lie in octave -1, the next twelve in octave 0, and so on.
pub open spec fn octave_index(s: int) -> int {
    s / (SEMITONES_PER_OCTAVE as int) - 1
}

/// The semitone count of a pitch after transposition by an interval.
pub open spec fn transposed(s: int, by: int) -> int {
    s + by
}

/// The semitone count of the pitch that keeps the pitch class of `s` but
/// lies in the octave with index `o`.
pub open spec fn at_octave(s: int, o: int) -> int {
    canonical_semitones(s) + (o + 1) * (SEMITONES_PER_OCTAVE as int)
}

/// The name of a pitch class, with sharps for the five accidentals.
pub open spec fn pitch_class_name(pc: int) -> Seq<char> {
    if pc == 0 {
        "C"@
    } else if pc == 1 {
        "C#"@
    } else if pc == 2 {
        "D"@
    } else if pc == 3 {
        "D#"@
    } else if pc == 4 {
        "E"@
    } else if pc == 5 {
        "F"@
    } else if pc == 6 {
        "F#"@
    } else if pc == 7 {
        "G"@
    } else if pc == 8 {
        "G#"@
    } else if pc == 9 {
        "A"@
    } else if pc == 10 {
        "A#"@
    } else {
        "B"@
    }
}

/// The human-readable form of a pitch: the bare pitch-class name when the
/// pitch is canonical, otherwise the pitch-class name followed by the
/// octave index.
pub open spec fn pitch_str(s: int) -> Seq<char> {
    if is_pitch_class(s) {
        pitch_class_name(canonical_semitones(s))
    } else {
        pitch_class_name(canonical_semitones(s)) + decimal_str(octave_index(s))
    }
}

/// A musical pitch: an absolute semitone count in MIDI-style numbering,
/// where 0 is the lowest representable note and 60 is C in octave 4.
///
/// Arithmetic on pitches is unchecked by design; every operation states in
/// its precondition what must fit in a byte, and callers are responsible
/// for staying within the representable range.
#[derive(Debug, Clone, Copy, PartialEq, Eq, PartialOrd, Ord, Structural)]
pub struct Pitch(u8);

impl View for Pitch {
    type V = int;

    closed spec fn view(&self) -> int {
        self.0 as int
    }
}

/// Returns the name of the given pitch class.
fn class_name_str(pc: u8) -> (r: &'static str)
    requires
        pc < SEMITONES_PER_OCTAVE,
    ensures
        r@ == pitch_class_name(pc as int),
{
    match pc {
        0 => "C",
        1 => "C#",
        2 => "D",
        3 => "D#",
        4 => "E",
        5 => "F",
        6 => "F#",
        7 => "G",
        8 => "G#",
        9 => "A",
        10 => "A#",
        _ => "B",
    }
}

/// Every pitch's semitone count lies in the byte range.
pub proof fn lemma_pitch_range(p: Pitch)
    ensures
        0 <= p@ <= u8::MAX,
{
}

impl Pitch {
    /// Creates a pitch from an absolute semitone count.
    pub fn new(semitones: u8) -> (r: Self)
        ensures
            r@ == semitones as int,
    {
        Pitch(semitones)
    }

    /// Returns the absolute semitone count of this pitch.
    pub fn semitones(&self) -> (r: u8)
        ensures
            r as int == self@,
    {
        self.0
    }

    /// Places this pitch class in the given octave. The pitch must already
    /// be in canonical form; use [`Pitch::with_octave`] to re-register an
    /// arbitrary pitch.
    pub fn from_canonical(self, octave: Octave) -> (r: Self)
        requires
            is_pitch_class(self@),
            octave@ >= -1,
            self@ + (octave@ + 1) * (SEMITONES_PER_OCTAVE as int) <= u8::MAX,
        ensures
            r@ == at_octave(self@, octave@),
    {
        let semitone = self.0 + (octave.value() + 1) as u8 * SEMITONES_PER_OCTAVE;
        Pitch(semitone)
    }

    /// Keeps this pitch's class but moves it to the given octave.
    pub fn with_octave(self, octave: Octave) -> (r: Self)
        requires
            octave@ >= -1,
            canonical_semitones(self@) + (octave@ + 1) * (SEMITONES_PER_OCTAVE as int) <= u8::MAX,
        ensures
            r@ == at_octave(self@, octave@),
    {
        let semitone = self.canonical().0 + (octave.value() + 1) as u8 * SEMITONES_PER_OCTAVE;
        Pitch(semitone)
    }

    /// Returns the canonical form of this pitch: its pitch class, the
    /// semitone count reduced to the lowest octave.
    pub fn canonical(&self) -> (r: Pitch)
        ensures
            r@ == canonical_semitones(self@),
    {
        let semitone = self.0 % SEMITONES_PER_OCTAVE;
        Pitch(semitone)
    }

    /// Returns whether this pitch is in canonical form (a bare pitch class).
    pub fn is_canonical(&self) -> (r: bool)
        ensures
            r == is_pitch_class(self@),
    {
        self.0 < SEMITONES_PER_OCTAVE
    }

    /// Returns the octave this pitch lies in.
    pub fn octave(&self) -> (r: Octave)
        ensures
            r@ == octave_index(self@),
    {
        let octave = (self.0 / SEMITONES_PER_OCTAVE) as i8 - 1;
        Octave::new(octave)
    }

    /// Transposes this pitch up by the given interval.
    pub fn transpose(&self, interval: Interval) -> (r: Pitch)
        requires
            transposed(self@, interval@) <= u8::MAX,
        ensures
            r@ == transposed(self@, interval@),
    {
        Pitch(self.0 + interval.semitones())
    }

    /// Returns the human-readable form of this pitch: the pitch-class name
    /// alone when canonical, otherwise the pitch-class name followed by
    /// the octave index.
    pub fn to_string(&self) -> (r: String)
        ensures
            r@ == pitch_str(self@),
    {
        let canonical = self.canonical();
        let name = class_name_str(canonical.semitones());
        if self.is_canonical() {
            String::from_str(name)
        } else {
            let octave_part = self.octave().to_string();
            String::from_str(name).concat(octave_part.as_str())
        }
    }

    /// Transposes this pitch by each interval of the pattern in turn,
    /// returning the transposed pitches in pattern order.
    pub fn apply_pattern(&self, pattern: &[Interval]) -> (r: Vec<Pitch>)
        requires
            forall|k: int|
                0 <= k < pattern@.len() ==> transposed(self@, pattern@[k]@) <= u8::MAX,
        ensures
            r@.len() == pattern@.len(),
            forall|k: int| 0 <= k < r@.len() ==> r@[k]@ == transposed(self@, pattern@[k]@),
    {
        let mut pitches: Vec<Pitch> = Vec::new();
        let mut idx: usize = 0;
        while idx < pattern.len()
            invariant
                idx <= pattern@.len(),
                pitches@.len() == idx,
                forall|k: int|
                    0 <= k < pattern@.len() ==> transposed(self@, pattern@[k]@) <= u8::MAX,
                forall|k: int|
                    0 <= k < pitches@.len() ==> pitches@[k]@ == transposed(self@, pattern@[k]@),
            decreases pattern@.len() - idx,
        {
            pitches.push(self.transpose(pattern[idx]));
            idx = idx + 1;
        }
        pitches
    }
}

} // verus!
