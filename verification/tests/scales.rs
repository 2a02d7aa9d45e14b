use mozzart::BluesScalePattern;
use mozzart::HarmonicMajorScalePattern;
use mozzart::HarmonicMinorScalePattern;
use mozzart::MajorScalePattern;
use mozzart::MelodicMinorScalePattern;
use mozzart::NaturalMinorScalePattern;
use mozzart::PentatonicMajorScalePattern;
use mozzart::PentatonicMinorScalePattern;
use mozzart::Pitch;
use mozzart::ScalePattern;

#[test]
fn test_harmonic_major_scale() {
    let scale = HarmonicMajorScalePattern::apply(Pitch::new(60));

    let pitches = scale.pitches();
    assert_eq!(pitches.len(), 7);
    assert_eq!(pitches[0], Pitch::new(60));
    assert_eq!(pitches[1], Pitch::new(62));
    assert_eq!(pitches[2], Pitch::new(64));
    assert_eq!(pitches[3], Pitch::new(65));
    assert_eq!(pitches[4], Pitch::new(67));
    assert_eq!(pitches[5], Pitch::new(68));
    assert_eq!(pitches[6], Pitch::new(71));

    assert_eq!(scale.root(), Pitch::new(60));
    assert_eq!(scale.name(), "harmonic major");
    assert_eq!(scale.to_string(), "C4 harmonic major");
}

#[test]
fn test_harmonic_minor_scale() {
    let scale = HarmonicMinorScalePattern::apply(Pitch::new(60));
    let pitches = scale.pitches();
    assert_eq!(pitches.len(), 7);
    assert_eq!(pitches[0], Pitch::new(60));
    assert_eq!(pitches[1], Pitch::new(62));
    assert_eq!(pitches[2], Pitch::new(63));
    assert_eq!(pitches[3], Pitch::new(65));
    assert_eq!(pitches[4], Pitch::new(67));
    assert_eq!(pitches[5], Pitch::new(68));
    assert_eq!(pitches[6], Pitch::new(71));
}

#[test]
fn test_harmonic_minor_scale_e() {
    let scale = HarmonicMinorScalePattern::apply(Pitch::new(64));
    let pitches = scale.pitches();
    assert_eq!(pitches.len(), 7);
    assert_eq!(pitches[0], Pitch::new(64));
    assert_eq!(pitches[1], Pitch::new(66));
    assert_eq!(pitches[2], Pitch::new(67));
    assert_eq!(pitches[3], Pitch::new(69));
    assert_eq!(pitches[4], Pitch::new(71));
    assert_eq!(pitches[5], Pitch::new(72));
    assert_eq!(pitches[6], Pitch::new(75));
}

#[test]
fn test_major_scale() {
    let scale = MajorScalePattern::apply(Pitch::new(60));

    let pitches = scale.pitches();
    assert_eq!(pitches.len(), 7);
    assert_eq!(pitches[0], Pitch::new(60));
    assert_eq!(pitches[1], Pitch::new(62));
    assert_eq!(pitches[2], Pitch::new(64));
    assert_eq!(pitches[3], Pitch::new(65));
    assert_eq!(pitches[4], Pitch::new(67));
    assert_eq!(pitches[5], Pitch::new(69));
    assert_eq!(pitches[6], Pitch::new(71));

    assert_eq!(scale.root(), Pitch::new(60));
    assert_eq!(scale.name(), "major");
    assert_eq!(scale.to_string(), "C4 major");
}

#[test]
fn test_major_scale_g() {
    let scale = MajorScalePattern::apply(Pitch::new(67));
    let pitches = scale.pitches();
    assert_eq!(pitches.len(), 7);
    assert_eq!(pitches[0], Pitch::new(67));
    assert_eq!(pitches[1], Pitch::new(69));
    assert_eq!(pitches[2], Pitch::new(71));
    assert_eq!(pitches[3], Pitch::new(72));
    assert_eq!(pitches[4], Pitch::new(74));
    assert_eq!(pitches[5], Pitch::new(76));
    assert_eq!(pitches[6], Pitch::new(78));
}

#[test]
fn test_melodic_minor_scale() {
    let scale = MelodicMinorScalePattern::apply(Pitch::new(60));

    let pitches = scale.pitches();
    assert_eq!(pitches.len(), 7);
    assert_eq!(pitches[0], Pitch::new(60));
    assert_eq!(pitches[1], Pitch::new(62));
    assert_eq!(pitches[2], Pitch::new(63));
    assert_eq!(pitches[3], Pitch::new(65));
    assert_eq!(pitches[4], Pitch::new(67));
    assert_eq!(pitches[5], Pitch::new(69));
    assert_eq!(pitches[6], Pitch::new(71));

    assert_eq!(scale.root(), Pitch::new(60));
    assert_eq!(scale.name(), "melodic minor");
    assert_eq!(scale.to_string(), "C4 melodic minor");
}

#[test]
fn test_natural_minor_scale() {
    let scale = NaturalMinorScalePattern::apply(Pitch::new(60));
    let pitches = scale.pitches();
    assert_eq!(pitches.len(), 7);
    assert_eq!(pitches[0], Pitch::new(60));
    assert_eq!(pitches[1], Pitch::new(62));
    assert_eq!(pitches[2], Pitch::new(63));
    assert_eq!(pitches[3], Pitch::new(65));
    assert_eq!(pitches[4], Pitch::new(67));
    assert_eq!(pitches[5], Pitch::new(68));
    assert_eq!(pitches[6], Pitch::new(70));
}

#[test]
fn test_natural_minor_scale_e() {
    let scale = NaturalMinorScalePattern::apply(Pitch::new(64));
    let pitches = scale.pitches();
    assert_eq!(pitches.len(), 7);
    assert_eq!(pitches[0], Pitch::new(64));
    assert_eq!(pitches[1], Pitch::new(66));
    assert_eq!(pitches[2], Pitch::new(67));
    assert_eq!(pitches[3], Pitch::new(69));
    assert_eq!(pitches[4], Pitch::new(71));
    assert_eq!(pitches[5], Pitch::new(72));
    assert_eq!(pitches[6], Pitch::new(74));
}

#[test]
fn test_blues_scale() {
    let scale = BluesScalePattern::apply(Pitch::new(60));
    let pitches = scale.pitches();
    assert_eq!(pitches.len(), 6);
    assert_eq!(pitches[0], Pitch::new(60));
    assert_eq!(pitches[1], Pitch::new(63));
    assert_eq!(pitches[2], Pitch::new(65));
    assert_eq!(pitches[3], Pitch::new(66));
    assert_eq!(pitches[4], Pitch::new(67));
    assert_eq!(pitches[5], Pitch::new(70));
}

#[test]
fn test_pentatonic_major_scale() {
    let scale = PentatonicMajorScalePattern::apply(Pitch::new(60));

    let pitches = scale.pitches();
    assert_eq!(pitches.len(), 5);
    assert_eq!(pitches[0], Pitch::new(60));
    assert_eq!(pitches[1], Pitch::new(62));
    assert_eq!(pitches[2], Pitch::new(64));
    assert_eq!(pitches[3], Pitch::new(67));
    assert_eq!(pitches[4], Pitch::new(69));

    assert_eq!(scale.root(), Pitch::new(60));
    assert_eq!(scale.name(), "pentatonic major");
    assert_eq!(scale.to_string(), "C4 pentatonic major");
}

#[test]
fn test_pentatonic_minor_scale() {
    let scale = PentatonicMinorScalePattern::apply(Pitch::new(60));

    let pitches = scale.pitches();
    assert_eq!(pitches.len(), 5);
    assert_eq!(pitches[0], Pitch::new(60));
    assert_eq!(pitches[1], Pitch::new(63));
    assert_eq!(pitches[2], Pitch::new(65));
    assert_eq!(pitches[3], Pitch::new(67));
    assert_eq!(pitches[4], Pitch::new(70));

    assert_eq!(scale.root(), Pitch::new(60));
    assert_eq!(scale.name(), "pentatonic minor");
    assert_eq!(scale.to_string(), "C4 pentatonic minor");
}
