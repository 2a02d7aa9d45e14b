//! Seven-note scale kinds.

pub mod harmonic_major;
pub mod harmonic_minor;
pub mod major;
pub mod melodic_minor;
pub mod natural_minor;
