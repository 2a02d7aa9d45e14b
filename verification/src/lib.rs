//! A music-theory value library.
//!
//! Pitches, intervals and octaves are small copyable values over byte-sized
//! integers; scales and chords pair a fixed interval pattern with a kind
//! marker and apply it to a root pitch.

mod chord;
mod display;
mod heptatonic;
mod hexatonic;
mod interval;
mod laws;
mod note;
mod octave;
mod pentatonic;
mod pitch;
mod scale;

pub use chord::ChordPattern;
pub use chord::ChordType;
pub use display::decimal_digits;
pub use display::decimal_str;
pub use display::digit_seq;
pub use heptatonic::harmonic_major::HarmonicMajorScalePattern;
pub use heptatonic::harmonic_major::HarmonicMajorScaleType;
pub use heptatonic::harmonic_minor::HarmonicMinorScalePattern;
pub use heptatonic::harmonic_minor::HarmonicMinorScaleType;
pub use heptatonic::major::MajorScalePattern;
pub use heptatonic::major::MajorScaleType;
pub use heptatonic::melodic_minor::MelodicMinorScalePattern;
pub use heptatonic::melodic_minor::MelodicMinorScaleType;
pub use heptatonic::natural_minor::NaturalMinorScalePattern;
pub use heptatonic::natural_minor::NaturalMinorScaleType;
pub use hexatonic::blues::BluesScalePattern;
pub use hexatonic::blues::BluesScaleType;
pub use pentatonic::pentatonic_major::PentatonicMajorScalePattern;
pub use pentatonic::pentatonic_major::PentatonicMajorScaleType;
pub use pentatonic::pentatonic_minor::PentatonicMinorScalePattern;
pub use pentatonic::pentatonic_minor::PentatonicMinorScaleType;
pub use interval::Interval;
pub use laws::lemma_canonical_round_trip;
pub use laws::lemma_octave_semitone_consistency;
pub use laws::lemma_transpose_additive;
pub use laws::lemma_transpose_commutative;
pub use laws::lemma_with_octave_keeps_class;
pub use note::Note;
pub use octave::Octave;
pub use pitch::at_octave;
pub use pitch::canonical_semitones;
pub use pitch::is_pitch_class;
pub use pitch::lemma_pitch_range;
pub use pitch::octave_index;
pub use pitch::pitch_class_name;
pub use pitch::pitch_str;
pub use pitch::transposed;
pub use pitch::Pitch;
pub use pitch::SEMITONES_PER_OCTAVE;
pub use scale::Scale;
pub use scale::ScalePattern;
pub use scale::ScaleType;
