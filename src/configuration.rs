//! Chip configurations, as read from a device.
//!
//! The configuration holds identification, power, pin drive strengths,
//! optional features and FIFO behaviour. Writing a configuration back to a
//! device is not offered.
mod data_transfer;
mod optional;
mod pin_drive;
mod power;
mod string_descriptor;

use vstd::prelude::*;

use crate::error::D3xxError;

pub use data_transfer::{
    channel_configuration_of, fifo_clock_of, fifo_mode_of, ChannelConfiguration,
    DataTransferConfig, FifoClock, FifoMode,
};
pub use optional::{
    BatteryChargingModes, OptionalFeatures, FLAG_ALL_ENABLED, FLAG_BATTERY_CHARGING_ENABLE,
    FLAG_CHARGING_MODE_CDP, FLAG_CHARGING_MODE_DCP, FLAG_CHARGING_MODE_SDP,
    FLAG_NOTIFICATION_ENABLE_PIPE0, FLAG_UNDERRUN_DISABLE, FLAG_UNDERRUN_DISABLE_PIPE0,
};
pub use pin_drive::{drive_strength_of, DriveStrength, PinDriveStrengths};
pub use power::{PowerConfig, FLAG_REMOTE_WAKEUP, FLAG_SELF_POWERED};
pub use string_descriptor::{
    block_of, from_utf16_lossy_of, le_bytes, min_len, part_bytes, part_fits, part_start,
    part_units, parts_fit, string_parts_fit, utf16_of, StringDescriptor, MAX_MANUFACTURER_UNITS,
    MAX_PRODUCT_UNITS, MAX_SERIAL_NUMBER_UNITS, STRING_DESCRIPTORS_LEN, STRING_DESCRIPTOR_TYPE,
};

verus! {

/// A chip configuration record, as plain values.
pub struct ChipConfigurationFields {
    /// Vendor ID.
    pub vendor_id: u16,
    /// Product ID.
    pub product_id: u16,
    /// The block holding the string descriptors.
    pub string_descriptors: [u8; 128],
    /// Interrupt latency.
    pub interrupt_latency: u8,
    /// Power attribute bits.
    pub power_attributes: u8,
    /// Maximum power, in units of 2 mA.
    pub power_consumption: u16,
    /// FIFO clock encoding.
    pub fifo_clock: u8,
    /// FIFO mode encoding.
    pub fifo_mode: u8,
    /// Channel configuration encoding.
    pub channel_config: u8,
    /// Optional feature bits.
    pub optional_features: u16,
    /// Battery charging byte.
    pub battery_charging: u8,
    /// MSIO control word.
    pub msio_control: u32,
    /// GPIO control word.
    pub gpio_control: u32,
}

/// `FT60x` chip configuration.
pub struct ChipConfiguration {
    vid: u16,
    pid: u16,
    string_descriptor: StringDescriptor,
    power_config: PowerConfig,
    pin_drive_strength: PinDriveStrengths,
    interrupt_latency: u8,
    data_transfer: DataTransferConfig,
    optional_features: OptionalFeatures,
}

impl ChipConfiguration {
    /// Vendor ID.
    pub closed spec fn spec_vendor_id(&self) -> u16 {
        self.vid
    }

    /// Product ID.
    pub closed spec fn spec_product_id(&self) -> u16 {
        self.pid
    }

    /// String descriptors.
    pub closed spec fn spec_string_descriptor(&self) -> StringDescriptor {
        self.string_descriptor
    }

    /// Power configuration.
    pub closed spec fn spec_power_config(&self) -> PowerConfig {
        self.power_config
    }

    /// Pin drive strengths.
    pub closed spec fn spec_pin_drive_strengths(&self) -> PinDriveStrengths {
        self.pin_drive_strength
    }

    /// Interrupt latency.
    pub closed spec fn spec_interrupt_latency(&self) -> u8 {
        self.interrupt_latency
    }

    /// Data transfer configuration.
    pub closed spec fn spec_data_transfer(&self) -> DataTransferConfig {
        self.data_transfer
    }

    /// Optional features.
    pub closed spec fn spec_optional_features(&self) -> OptionalFeatures {
        self.optional_features
    }

    /// The configuration in the record `raw`.
    ///
    /// Fails with `OtherError` when the string descriptor parts do not lie
    /// within their block, or when the FIFO clock, FIFO mode or channel
    /// configuration encodes nothing known.
    pub fn new(raw: ChipConfigurationFields) -> (r: Result<ChipConfiguration, D3xxError>)
        ensures
            r is Ok <==> parts_fit(raw.string_descriptors@) && fifo_clock_of(raw.fifo_clock) is Some
                && fifo_mode_of(raw.fifo_mode) is Some && channel_configuration_of(
                raw.channel_config,
            ) is Some,
            r matches Err(e) ==> e == D3xxError::OtherError,
            r matches Ok(c) ==> {
                &&& c.spec_vendor_id() == raw.vendor_id
                &&& c.spec_product_id() == raw.product_id
                &&& c.spec_interrupt_latency() == raw.interrupt_latency
                &&& c.spec_power_config().spec_flags() == raw.power_attributes
                &&& c.spec_power_config().spec_max_power_units() == raw.power_consumption
                &&& c.spec_optional_features().spec_flags() == raw.optional_features
                &&& Some(c.spec_data_transfer().spec_fifo_clock()) == fifo_clock_of(raw.fifo_clock)
                &&& Some(c.spec_data_transfer().spec_fifo_mode()) == fifo_mode_of(raw.fifo_mode)
                &&& Some(c.spec_data_transfer().spec_channel_config()) == channel_configuration_of(
                    raw.channel_config,
                )
                &&& c.spec_pin_drive_strengths().spec_fifo_data() == drive_strength_of(
                    raw.msio_control & 3,
                )
                &&& c.spec_pin_drive_strengths().spec_fifo_clock() == drive_strength_of(
                    (raw.msio_control >> 4) & 3,
                )
                &&& c.spec_pin_drive_strengths().spec_gpio0() == drive_strength_of(
                    (raw.gpio_control >> 8) & 3,
                )
                &&& c.spec_pin_drive_strengths().spec_gpio1() == drive_strength_of(
                    (raw.gpio_control >> 10) & 3,
                )
                &&& raw.optional_features & FLAG_BATTERY_CHARGING_ENABLE != 0
                    ==> c.spec_optional_features().spec_battery_bits() == Some(raw.battery_charging)
                &&& raw.optional_features & FLAG_BATTERY_CHARGING_ENABLE == 0
                    ==> c.spec_optional_features().spec_battery_bits() is None
                &&& c.spec_string_descriptor().spec_manufacturer() == from_utf16_lossy_of(
                    part_units(raw.string_descriptors@, part_start(raw.string_descriptors@, 0)),
                )
                &&& c.spec_string_descriptor().spec_product() == from_utf16_lossy_of(
                    part_units(raw.string_descriptors@, part_start(raw.string_descriptors@, 1)),
                )
                &&& c.spec_string_descriptor().spec_serial_number() == from_utf16_lossy_of(
                    part_units(raw.string_descriptors@, part_start(raw.string_descriptors@, 2)),
                )
            },
    {
        if !string_parts_fit(raw.string_descriptors.as_slice()) {
            return Err(D3xxError::OtherError);
        }
        let pin_drive_strength = match PinDriveStrengths::new(raw.msio_control, raw.gpio_control) {
            Ok(p) => p,
            Err(e) => return Err(e),
        };
        let data_transfer = match DataTransferConfig::new(
            raw.fifo_clock,
            raw.fifo_mode,
            raw.channel_config,
        ) {
            Ok(d) => d,
            Err(e) => return Err(e),
        };
        Ok(
            ChipConfiguration {
                vid: raw.vendor_id,
                pid: raw.product_id,
                string_descriptor: StringDescriptor::new(raw.string_descriptors),
                power_config: PowerConfig::new(raw.power_attributes, raw.power_consumption),
                pin_drive_strength,
                interrupt_latency: raw.interrupt_latency,
                data_transfer,
                optional_features: OptionalFeatures::new(
                    raw.optional_features,
                    raw.battery_charging,
                ),
            },
        )
    }

    /// Vendor ID.
    pub fn vendor_id(&self) -> (r: u16)
        ensures
            r == self.spec_vendor_id(),
    {
        self.vid
    }

    /// Product ID.
    pub fn product_id(&self) -> (r: u16)
        ensures
            r == self.spec_product_id(),
    {
        self.pid
    }

    /// The string descriptors: manufacturer, product and serial number.
    pub fn string_descriptor(&self) -> (r: &StringDescriptor)
        ensures
            *r == self.spec_string_descriptor(),
    {
        &self.string_descriptor
    }

    /// The string descriptors, for change.
    pub fn string_descriptor_mut(&mut self) -> (r: &mut StringDescriptor)
        ensures
            *r == old(self).spec_string_descriptor(),
            final(self).spec_string_descriptor() == *final(r),
            final(self).spec_vendor_id() == old(self).spec_vendor_id(),
            final(self).spec_product_id() == old(self).spec_product_id(),
            final(self).spec_interrupt_latency() == old(self).spec_interrupt_latency(),
            final(self).spec_power_config() == old(self).spec_power_config(),
            final(self).spec_pin_drive_strengths() == old(self).spec_pin_drive_strengths(),
            final(self).spec_data_transfer() == old(self).spec_data_transfer(),
            final(self).spec_optional_features() == old(self).spec_optional_features(),
    {
        &mut self.string_descriptor
    }

    /// The power configuration.
    pub fn power_config(&self) -> (r: &PowerConfig)
        ensures
            *r == self.spec_power_config(),
    {
        &self.power_config
    }

    /// The power configuration, for change.
    pub fn power_config_mut(&mut self) -> (r: &mut PowerConfig)
        ensures
            *r == old(self).spec_power_config(),
            final(self).spec_power_config() == *final(r),
            final(self).spec_vendor_id() == old(self).spec_vendor_id(),
            final(self).spec_product_id() == old(self).spec_product_id(),
            final(self).spec_interrupt_latency() == old(self).spec_interrupt_latency(),
            final(self).spec_string_descriptor() == old(self).spec_string_descriptor(),
            final(self).spec_pin_drive_strengths() == old(self).spec_pin_drive_strengths(),
            final(self).spec_data_transfer() == old(self).spec_data_transfer(),
            final(self).spec_optional_features() == old(self).spec_optional_features(),
    {
        &mut self.power_config
    }

    /// The pin drive strengths.
    pub fn pin_drive_strengths(&self) -> (r: &PinDriveStrengths)
        ensures
            *r == self.spec_pin_drive_strengths(),
    {
        &self.pin_drive_strength
    }

    /// The pin drive strengths, for change.
    pub fn pin_drive_strengths_mut(&mut self) -> (r: &mut PinDriveStrengths)
        ensures
            *r == old(self).spec_pin_drive_strengths(),
            final(self).spec_pin_drive_strengths() == *final(r),
            final(self).spec_vendor_id() == old(self).spec_vendor_id(),
            final(self).spec_product_id() == old(self).spec_product_id(),
            final(self).spec_interrupt_latency() == old(self).spec_interrupt_latency(),
            final(self).spec_string_descriptor() == old(self).spec_string_descriptor(),
            final(self).spec_power_config() == old(self).spec_power_config(),
            final(self).spec_data_transfer() == old(self).spec_data_transfer(),
            final(self).spec_optional_features() == old(self).spec_optional_features(),
    {
        &mut self.pin_drive_strength
    }

    /// Interrupt latency, from 1 to 16: `2^(latency - 1)` USB frames of 125 us.
    pub fn interrupt_latency(&self) -> (r: u8)
        ensures
            r == self.spec_interrupt_latency(),
    {
        self.interrupt_latency
    }

    /// Set the interrupt latency, which must lie from 1 to 16.
    pub fn set_interrupt_latency(&mut self, latency: u8)
        requires
            1 <= latency <= 16,
        ensures
            final(self).spec_interrupt_latency() == latency,
            final(self).spec_vendor_id() == old(self).spec_vendor_id(),
            final(self).spec_product_id() == old(self).spec_product_id(),
            final(self).spec_string_descriptor() == old(self).spec_string_descriptor(),
            final(self).spec_power_config() == old(self).spec_power_config(),
            final(self).spec_pin_drive_strengths() == old(self).spec_pin_drive_strengths(),
            final(self).spec_data_transfer() == old(self).spec_data_transfer(),
            final(self).spec_optional_features() == old(self).spec_optional_features(),
    {
        self.interrupt_latency = latency;
    }

    /// The data transfer configuration.
    pub fn data_transfer(&self) -> (r: &DataTransferConfig)
        ensures
            *r == self.spec_data_transfer(),
    {
        &self.data_transfer
    }

    /// The data transfer configuration, for change.
    pub fn data_transfer_mut(&mut self) -> (r: &mut DataTransferConfig)
        ensures
            *r == old(self).spec_data_transfer(),
            final(self).spec_data_transfer() == *final(r),
            final(self).spec_vendor_id() == old(self).spec_vendor_id(),
            final(self).spec_product_id() == old(self).spec_product_id(),
            final(self).spec_interrupt_latency() == old(self).spec_interrupt_latency(),
            final(self).spec_string_descriptor() == old(self).spec_string_descriptor(),
            final(self).spec_power_config() == old(self).spec_power_config(),
            final(self).spec_pin_drive_strengths() == old(self).spec_pin_drive_strengths(),
            final(self).spec_optional_features() == old(self).spec_optional_features(),
    {
        &mut self.data_transfer
    }

    /// The optional features.
    pub fn optional_features(&self) -> (r: &OptionalFeatures)
        ensures
            *r == self.spec_optional_features(),
    {
        &self.optional_features
    }

    /// The optional features, for change.
    pub fn optional_features_mut(&mut self) -> (r: &mut OptionalFeatures)
        ensures
            *r == old(self).spec_optional_features(),
            final(self).spec_optional_features() == *final(r),
            final(self).spec_vendor_id() == old(self).spec_vendor_id(),
            final(self).spec_product_id() == old(self).spec_product_id(),
            final(self).spec_interrupt_latency() == old(self).spec_interrupt_latency(),
            final(self).spec_string_descriptor() == old(self).spec_string_descriptor(),
            final(self).spec_power_config() == old(self).spec_power_config(),
            final(self).spec_pin_drive_strengths() == old(self).spec_pin_drive_strengths(),
            final(self).spec_data_transfer() == old(self).spec_data_transfer(),
    {
        &mut self.optional_features
    }
}

} // verus!
