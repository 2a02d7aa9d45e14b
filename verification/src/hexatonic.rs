//! Six-note scale kinds.

pub mod blues;
