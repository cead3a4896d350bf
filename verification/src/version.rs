//! Version information.

use vstd::prelude::*;

verus! {

/// A semantic version: major, minor and patch level.
#[derive(Debug, Clone, Copy, PartialEq, Eq, Structural)]
pub struct Version {
    major: u8,
    minor: u8,
    patch: u8,
}

impl Version {
    /// The three numbers of the version, in order.
    pub closed spec fn view(&self) -> (u8, u8, u8) {
        (self.major, self.minor, self.patch)
    }

    /// The version of this library.
    pub fn current() -> (v: Version)
        ensures
            v@ == (0u8, 1u8, 0u8),
    {
        Version { major: 0, minor: 1, patch: 0 }
    }

    /// The version with these three numbers.
    pub fn new(major: u8, minor: u8, patch: u8) -> (v: Version)
        ensures
            v@ == (major, minor, patch),
    {
        Version { major, minor, patch }
    }

    /// The major number.
    pub fn major(&self) -> (n: u8)
        ensures
            n == self@.0,
    {
        self.major
    }

    /// The minor number.
    pub fn minor(&self) -> (n: u8)
        ensures
            n == self@.1,
    {
        self.minor
    }

    /// The patch level.
    pub fn patch(&self) -> (n: u8)
        ensures
            n == self@.2,
    {
        self.patch
    }
}

} // verus!
