//! Library and driver versions.
use vstd::prelude::*;

verus! {

/// A D3XX library or driver version, packed as the driver reports it:
/// major in bits 16-23, minor in bits 8-15, build in bits 0-15.
pub struct Version(u32);

impl Version {
    /// The packed value.
    pub closed spec fn spec_raw(&self) -> u32 {
        self.0
    }

    /// The version packed as `raw`.
    pub fn new(raw: u32) -> (r: Version)
        ensures
            r.spec_raw() == raw,
    {
        Version(raw)
    }

    /// Major version number.
    pub fn major(&self) -> (r: u8)
        ensures
            r == (self.spec_raw() >> 16) as u8,
    {
        (self.0 >> 16) as u8
    }

    /// Minor version number.
    pub fn minor(&self) -> (r: u8)
        ensures
            r == (self.spec_raw() >> 8) as u8,
    {
        (self.0 >> 8) as u8
    }

    /// Build number.
    pub fn build(&self) -> (r: u16)
        ensures
            r == self.spec_raw() as u16,
    {
        self.0 as u16
    }
}

} // verus!
