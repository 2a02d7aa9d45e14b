//! Five-note scale kinds.

pub mod pentatonic_major;
pub mod pentatonic_minor;
