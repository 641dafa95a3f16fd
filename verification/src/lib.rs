//! A collection of small utilities, with a keyed streaming hash at its heart.

pub mod basics;
pub mod bitfield;
pub mod cmp;
pub mod collections;
pub mod console;
pub mod crypto;
pub mod fmt;
pub mod fs;
pub mod os;
pub mod path;
pub mod random;
pub mod str;
pub mod sync;
pub mod time;

pub use crate::basics::{
    as_slice, as_slice_mut, assert_send, assert_send_sync, assert_sync, option_as_slice,
    option_as_slice_mut, Any, BlackHole, BoolExt, DefaultDebug, VecExt,
};
pub use crate::bitfield::BitField;
