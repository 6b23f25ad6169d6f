//! Optional features of the chip: battery charging, notifications and underrun
//! detection.
use vstd::prelude::*;

use crate::pipe::{pipe_is_in, pipe_number, Pipe};

verus! {

/// Feature bit: battery charging is enabled.
pub const FLAG_BATTERY_CHARGING_ENABLE: u16 = 0x0001;

/// Feature bit: underrun detection is disabled on all pipes.
pub const FLAG_UNDERRUN_DISABLE: u16 = 0x0002;

/// Feature bit: notification messages are enabled on input pipe 0; pipe `k`
/// has the bit `k` places higher.
pub const FLAG_NOTIFICATION_ENABLE_PIPE0: u16 = 0x0004;

/// Feature bit: underrun detection is disabled on input pipe 0; pipe `k` has
/// the bit `k` places higher.
pub const FLAG_UNDERRUN_DISABLE_PIPE0: u16 = 0x0040;

/// Every feature bit set.
pub const FLAG_ALL_ENABLED: u16 = 0xFFFF;

/// Battery charging bits: dedicated charging port.
pub const FLAG_CHARGING_MODE_DCP: u8 = 0xC0;

/// Battery charging bits: charging downstream port.
pub const FLAG_CHARGING_MODE_CDP: u8 = 0x30;

/// Battery charging bits: standard downstream port.
pub const FLAG_CHARGING_MODE_SDP: u8 = 0x0C;

/// Battery charging modes, as the GPIO configuration byte encodes them.
pub struct BatteryChargingModes(u8);

impl BatteryChargingModes {
    /// The configuration byte.
    pub closed spec fn spec_bits(&self) -> u8 {
        self.0
    }

    /// Dedicated charging port (DCP): bits 6-7.
    pub fn dcp(&self) -> (r: u8)
        ensures
            r == (self.spec_bits() & FLAG_CHARGING_MODE_DCP) >> 6u8,
    {
        (self.0 & FLAG_CHARGING_MODE_DCP) >> 6u8
    }

    /// Charging downstream port (CDP): bits 4-5.
    pub fn cdp(&self) -> (r: u8)
        ensures
            r == (self.spec_bits() & FLAG_CHARGING_MODE_CDP) >> 4u8,
    {
        (self.0 & FLAG_CHARGING_MODE_CDP) >> 4u8
    }

    /// Standard downstream port (SDP): bits 2-3.
    pub fn sdp(&self) -> (r: u8)
        ensures
            r == (self.spec_bits() & FLAG_CHARGING_MODE_SDP) >> 2u8,
    {
        (self.0 & FLAG_CHARGING_MODE_SDP) >> 2u8
    }
}

/// The optional features of the chip.
pub struct OptionalFeatures {
    flags: u16,
    battery_charging: Option<BatteryChargingModes>,
}

impl OptionalFeatures {
    /// The feature bits.
    pub closed spec fn spec_flags(&self) -> u16 {
        self.flags
    }

    /// The battery charging byte, when battery charging is enabled.
    pub closed spec fn spec_battery_bits(&self) -> Option<u8> {
        match self.battery_charging {
            Some(b) => Some(b.0),
            None => None,
        }
    }

    /// The features in feature bits `flags` and battery charging byte
    /// `battery_flags`; the latter counts only when battery charging is on.
    pub fn new(flags: u16, battery_flags: u8) -> (r: OptionalFeatures)
        ensures
            r.spec_flags() == flags,
            flags & FLAG_BATTERY_CHARGING_ENABLE != 0 ==> r.spec_battery_bits() == Some(
                battery_flags,
            ),
            flags & FLAG_BATTERY_CHARGING_ENABLE == 0 ==> r.spec_battery_bits() is None,
    {
        let battery_charging = if flags & FLAG_BATTERY_CHARGING_ENABLE == 0 {
            None
        } else {
            Some(BatteryChargingModes(battery_flags))
        };
        OptionalFeatures { flags, battery_charging }
    }

    /// Check if all optional features are disabled.
    pub fn all_disabled(&self) -> (r: bool)
        ensures
            r == (self.spec_flags() == 0),
    {
        self.flags == 0
    }

    /// Check if all optional features are enabled.
    pub fn all_enabled(&self) -> (r: bool)
        ensures
            r == (self.spec_flags() == FLAG_ALL_ENABLED),
    {
        self.flags == FLAG_ALL_ENABLED
    }

    /// The battery charging configuration, if battery charging is enabled.
    pub fn battery_charging(&self) -> (r: Option<&BatteryChargingModes>)
        ensures
            r matches Some(b) ==> self.spec_battery_bits() == Some(b.spec_bits()),
            r is None ==> self.spec_battery_bits() is None,
    {
        self.battery_charging.as_ref()
    }

    /// Check if notification messages are enabled for input pipe `in_pipe`.
    pub fn notification_message_enabled(&self, in_pipe: Pipe) -> (r: bool)
        requires
            pipe_is_in(in_pipe),
        ensures
            r == (self.spec_flags() & (FLAG_NOTIFICATION_ENABLE_PIPE0 << pipe_number(in_pipe) as u16)
                != 0),
    {
        self.flags & (FLAG_NOTIFICATION_ENABLE_PIPE0 << in_pipe.number() as u16) != 0
    }

    /// Check if underrun detection is enabled.
    pub fn underrun_check_enabled(&self) -> (r: bool)
        ensures
            r == (self.spec_flags() & FLAG_UNDERRUN_DISABLE == 0),
    {
        self.flags & FLAG_UNDERRUN_DISABLE == 0
    }

    /// Check if underrun detection is disabled for input pipe `in_pipe`.
    pub fn underrun_disabled(&self, in_pipe: Pipe) -> (r: bool)
        requires
            pipe_is_in(in_pipe),
        ensures
            r == (self.spec_flags() & (FLAG_UNDERRUN_DISABLE_PIPE0 << pipe_number(in_pipe) as u16)
                != 0),
    {
        self.flags & (FLAG_UNDERRUN_DISABLE_PIPE0 << in_pipe.number() as u16) != 0
    }
}

} // verus!
