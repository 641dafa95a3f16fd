//! Booleans shared between threads.

use vstd::prelude::*;
use std::sync::atomic::AtomicBool;
use std::sync::atomic::Ordering;

verus! {

/// An atomic boolean that always uses acquire and release semantics.
///
/// What a read returns is whatever some thread stored last, so nothing is
/// promised of it.
pub struct AtomicArBool {
    value: AtomicBool,
}

impl AtomicArBool {
    pub fn new(value: bool) -> AtomicArBool {
        AtomicArBool { value: AtomicBool::new(value) }
    }

    /// Reads the value, acquiring what was released with it.
    pub fn get(&self) -> bool {
        self.value.load(Ordering::Acquire)
    }

    /// Stores the value, releasing what was written before.
    pub fn set(&self, value: bool) {
        self.value.store(value, Ordering::Release)
    }
}

impl Default for AtomicArBool {
    fn default() -> AtomicArBool {
        AtomicArBool { value: AtomicBool::new(false) }
    }
}

/// An atomic boolean that uses relaxed semantics.
///
/// What a read returns is whatever some thread stored last, so nothing is
/// promised of it.
pub struct AtomicRelaxedBool {
    value: AtomicBool,
}

impl AtomicRelaxedBool {
    pub fn new(value: bool) -> AtomicRelaxedBool {
        AtomicRelaxedBool { value: AtomicBool::new(value) }
    }

    pub fn get(&self) -> bool {
        self.value.load(Ordering::Relaxed)
    }

    pub fn set(&self, value: bool) {
        self.value.store(value, Ordering::Relaxed)
    }
}

impl Default for AtomicRelaxedBool {
    fn default() -> AtomicRelaxedBool {
        AtomicRelaxedBool { value: AtomicBool::new(false) }
    }
}

} // verus!
