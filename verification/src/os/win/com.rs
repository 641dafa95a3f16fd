//! Identifiers of component interfaces.

use vstd::prelude::*;

verus! {

/// An interface identifier: 128 bits in four groups.
#[derive(Clone, Copy, Debug, PartialEq, Eq)]
pub struct Iid {
    pub data1: u32,
    pub data2: u16,
    pub data3: u16,
    pub data4: [u8; 8],
}

impl Iid {
    /// Defines an iid. That of `IUnknown` is
    /// `Iid::new(0x00000000, 0x0000, 0x0000, [0xc0, 0x00, 0x00, 0x00, 0x00, 0x00, 0x00, 0x46])`.
    pub fn new(data1: u32, data2: u16, data3: u16, data4: [u8; 8]) -> (r: Iid)
        ensures
            r == (Iid { data1, data2, data3, data4 }),
    {
        Iid { data1, data2, data3, data4 }
    }
}

} // verus!
