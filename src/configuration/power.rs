//! Power configuration of the chip.
use vstd::prelude::*;

verus! {

/// Power attribute bit: the device supports remote wakeup.
pub const FLAG_REMOTE_WAKEUP: u8 = 0x20;

/// Power attribute bit: the device is self-powered.
pub const FLAG_SELF_POWERED: u8 = 0x40;

/// Power configuration: power source, remote wakeup and maximum power.
pub struct PowerConfig {
    flags: u8,
    max_power: u16,
}

impl PowerConfig {
    /// The power attribute bits.
    pub closed spec fn spec_flags(&self) -> u8 {
        self.flags
    }

    /// The maximum power, in units of 2 mA.
    pub closed spec fn spec_max_power_units(&self) -> u16 {
        self.max_power
    }

    /// A configuration with attribute bits `flags` and maximum power
    /// `max_power` in units of 2 mA.
    pub fn new(flags: u8, max_power: u16) -> (r: PowerConfig)
        ensures
            r.spec_flags() == flags,
            r.spec_max_power_units() == max_power,
    {
        PowerConfig { flags, max_power }
    }

    /// Check if the device is bus-powered: it is not self-powered.
    pub fn bus_powered(&self) -> (r: bool)
        ensures
            r == (self.spec_flags() & FLAG_SELF_POWERED == 0),
    {
        !self.self_powered()
    }

    /// Check if the device is self-powered.
    pub fn self_powered(&self) -> (r: bool)
        ensures
            r == (self.spec_flags() & FLAG_SELF_POWERED != 0),
    {
        self.flags & FLAG_SELF_POWERED != 0
    }

    /// Check if the device supports remote wakeup.
    pub fn remote_wakeup(&self) -> (r: bool)
        ensures
            r == (self.spec_flags() & FLAG_REMOTE_WAKEUP != 0),
    {
        self.flags & FLAG_REMOTE_WAKEUP != 0
    }

    /// The maximum power consumption in milliamps.
    pub fn max_power(&self) -> (r: u32)
        ensures
            r == 2 * self.spec_max_power_units(),
    {
        self.max_power as u32 * 2
    }
}

} // verus!
