//! Versions of the operating system.

use vstd::prelude::*;

verus! {

/// A version of the operating system: major and minor number, and build.
#[derive(Debug, Clone, PartialEq, Eq, PartialOrd, Ord, Hash)]
pub struct OsVersion {
    pub major: usize,
    pub minor: usize,
    pub build: usize,
}

impl OsVersion {
    pub fn new(major: usize, minor: usize, build: usize) -> (r: OsVersion)
        ensures
            r == (OsVersion { major, minor, build }),
    {
        OsVersion { major, minor, build }
    }

    /// Windows 7: version 6.1.
    pub fn windows_7() -> (r: OsVersion)
        ensures
            r == (OsVersion { major: 6, minor: 1, build: 0 }),
    {
        OsVersion::new(6, 1, 0)
    }

    /// Windows 8: version 6.2.
    pub fn windows_8() -> (r: OsVersion)
        ensures
            r == (OsVersion { major: 6, minor: 2, build: 0 }),
    {
        OsVersion::new(6, 2, 0)
    }

    /// Windows 8.1: version 6.3.
    pub fn windows_8_1() -> (r: OsVersion)
        ensures
            r == (OsVersion { major: 6, minor: 3, build: 0 }),
    {
        OsVersion::new(6, 3, 0)
    }

    /// Windows 10: version 10.0.
    pub fn windows_10() -> (r: OsVersion)
        ensures
            r == (OsVersion { major: 10, minor: 0, build: 0 }),
    {
        OsVersion::new(10, 0, 0)
    }
}

} // verus!
