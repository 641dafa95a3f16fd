//! Paths: their parts, and the name of the volume they begin with.

pub mod util;
pub mod volume;
