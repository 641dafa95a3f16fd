//! Keyed hashing.

pub mod hash;
pub mod sip;
pub mod sip_lemmas;
pub mod sip_model;
