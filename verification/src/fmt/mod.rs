//! Text forms of bytes, durations and sizes.

pub mod decimal;
pub mod hex;
pub mod human;
