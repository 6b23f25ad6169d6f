//! USB descriptors that the driver reports: device, configuration, interface
//! and pipe descriptors, and their strings.
use vstd::prelude::*;

use crate::error::D3xxError;
use crate::pipe::{pipe_of_code, pipe_type_of, Pipe, PipeType};

verus! {

/// The units form a nul-terminated wide string with no interior nul: the
/// last unit is nul and no other is.
pub open spec fn is_wide_c_str(units: Seq<u16>) -> bool {
    &&& units.len() >= 1
    &&& units.last() == 0
    &&& forall|i: int| 0 <= i < units.len() - 1 ==> units[i] != 0
}

/// What widestring's lossy UTF-16 decoding makes of `units`.
pub uninterp spec fn utf16_lossy_of(units: Seq<u16>) -> Seq<char>;

/// Relies on widestring's `U16CStr::from_slice`, which accepts the units only
/// when the last is nul and no other is, and on `U16CStr::to_string_lossy`,
/// which decodes the units before the nul as UTF-16, each invalid sequence
/// replaced by U+FFFD; the text depends on the units alone.
#[verifier::external_body]
fn wide_c_str_lossy(units: &[u16]) -> (r: Option<String>)
    ensures
        r is Some <==> is_wide_c_str(units@),
        r matches Some(s) ==> s@ == utf16_lossy_of(units@.drop_last()),
{
    widestring::U16CStr::from_slice(units).ok().map(|s| s.to_string_lossy())
}

/// The text of a string descriptor, given the wide string it holds.
///
/// Fails with `OtherError` unless the units are nul-terminated with no
/// interior nul.
pub fn descriptor_string(units: &[u16]) -> (r: Result<String, D3xxError>)
    ensures
        r is Ok <==> is_wide_c_str(units@),
        r matches Ok(s) ==> s@ == utf16_lossy_of(units@.drop_last()),
        r matches Err(e) ==> e == D3xxError::OtherError,
{
    match wide_c_str_lossy(units) {
        Some(s) => Ok(s),
        None => Err(D3xxError::OtherError),
    }
}

/// Class code triple for a device or interface descriptor.
#[derive(Debug, Clone, Copy, PartialEq, Eq, Structural)]
pub struct ClassCodes {
    class: u8,
    subclass: u8,
    protocol: u8,
}

impl ClassCodes {
    /// Class code.
    pub closed spec fn spec_class(&self) -> u8 {
        self.class
    }

    /// Subclass code.
    pub closed spec fn spec_subclass(&self) -> u8 {
        self.subclass
    }

    /// Protocol code.
    pub closed spec fn spec_protocol(&self) -> u8 {
        self.protocol
    }

    /// The codes `class`, `subclass` and `protocol`.
    pub fn new(class: u8, subclass: u8, protocol: u8) -> (r: ClassCodes)
        ensures
            r.spec_class() == class,
            r.spec_subclass() == subclass,
            r.spec_protocol() == protocol,
    {
        ClassCodes { class, subclass, protocol }
    }

    /// Class code (assigned by USB-IF).
    pub fn class(&self) -> (r: u8)
        ensures
            r == self.spec_class(),
    {
        self.class
    }

    /// Subclass code (assigned by USB-IF).
    pub fn subclass(&self) -> (r: u8)
        ensures
            r == self.spec_subclass(),
    {
        self.subclass
    }

    /// Protocol code (assigned by USB-IF).
    pub fn protocol(&self) -> (r: u8)
        ensures
            r == self.spec_protocol(),
    {
        self.protocol
    }
}

/// A USB protocol version in binary-coded form (`0x0210` is USB 2.1).
pub struct UsbVersion(pub usize);

impl UsbVersion {
    /// Major version number: the bits above the lowest eight.
    pub fn major(&self) -> (r: usize)
        ensures
            r == self.0 >> 8,
    {
        self.0 >> 8
    }

    /// Minor version number: the lowest eight bits.
    pub fn minor(&self) -> (r: usize)
        ensures
            r == self.0 & 0xFF,
    {
        self.0 & 0xFF
    }
}

/// The numeric fields of a device descriptor.
pub struct DeviceDescriptorFields {
    /// USB version in binary-coded form.
    pub bcd_usb: u16,
    /// Device class code.
    pub device_class: u8,
    /// Device subclass code.
    pub device_subclass: u8,
    /// Device protocol code.
    pub device_protocol: u8,
    /// Maximum packet size of endpoint zero.
    pub max_packet_size0: u8,
    /// Vendor ID.
    pub vendor_id: u16,
    /// Product ID.
    pub product_id: u16,
}

/// A USB device descriptor: identification, USB version and function.
pub struct DeviceDescriptor {
    fields: DeviceDescriptorFields,
    serial_number: String,
    manufacturer: String,
    product: String,
}

impl DeviceDescriptor {
    /// The numeric fields.
    pub closed spec fn spec_fields(&self) -> DeviceDescriptorFields {
        self.fields
    }

    /// The serial number.
    pub closed spec fn spec_serial_number(&self) -> Seq<char> {
        self.serial_number@
    }

    /// The manufacturer name.
    pub closed spec fn spec_manufacturer(&self) -> Seq<char> {
        self.manufacturer@
    }

    /// The product name.
    pub closed spec fn spec_product(&self) -> Seq<char> {
        self.product@
    }

    /// A device descriptor from its fields and the wide strings of its serial
    /// number, manufacturer and product string descriptors.
    ///
    /// Fails with `OtherError` if any of the strings does not decode.
    pub fn new(
        fields: DeviceDescriptorFields,
        serial_number: &[u16],
        manufacturer: &[u16],
        product: &[u16],
    ) -> (r: Result<DeviceDescriptor, D3xxError>)
        ensures
            r is Ok <==> is_wide_c_str(serial_number@) && is_wide_c_str(manufacturer@)
                && is_wide_c_str(product@),
            r matches Err(e) ==> e == D3xxError::OtherError,
            r matches Ok(d) ==> {
                &&& d.spec_fields() == fields
                &&& d.spec_serial_number() == utf16_lossy_of(serial_number@.drop_last())
                &&& d.spec_manufacturer() == utf16_lossy_of(manufacturer@.drop_last())
                &&& d.spec_product() == utf16_lossy_of(product@.drop_last())
            },
    {
        let serial_number = match descriptor_string(serial_number) {
            Ok(s) => s,
            Err(e) => return Err(e),
        };
        let manufacturer = match descriptor_string(manufacturer) {
            Ok(s) => s,
            Err(e) => return Err(e),
        };
        let product = match descriptor_string(product) {
            Ok(s) => s,
            Err(e) => return Err(e),
        };
        Ok(DeviceDescriptor { fields, serial_number, manufacturer, product })
    }

    /// The device serial number.
    pub fn serial_number(&self) -> (r: &str)
        ensures
            r@ == self.spec_serial_number(),
    {
        self.serial_number.as_str()
    }

    /// Human-readable manufacturer name.
    pub fn manufacturer(&self) -> (r: &str)
        ensures
            r@ == self.spec_manufacturer(),
    {
        self.manufacturer.as_str()
    }

    /// Human-readable product name.
    pub fn product(&self) -> (r: &str)
        ensures
            r@ == self.spec_product(),
    {
        self.product.as_str()
    }

    /// The vendor ID.
    pub fn vendor_id(&self) -> (r: usize)
        ensures
            r == self.spec_fields().vendor_id,
    {
        self.fields.vendor_id as usize
    }

    /// The product ID.
    pub fn product_id(&self) -> (r: usize)
        ensures
            r == self.spec_fields().product_id,
    {
        self.fields.product_id as usize
    }

    /// The USB protocol version.
    pub fn usb_version(&self) -> (r: UsbVersion)
        ensures
            r.0 == self.spec_fields().bcd_usb,
    {
        UsbVersion(self.fields.bcd_usb as usize)
    }

    /// The maximum size, in bytes, of a packet on endpoint zero.
    pub fn max_packet_size(&self) -> (r: usize)
        ensures
            r == self.spec_fields().max_packet_size0,
    {
        self.fields.max_packet_size0 as usize
    }

    /// The device class codes.
    pub fn class_codes(&self) -> (r: ClassCodes)
        ensures
            r.spec_class() == self.spec_fields().device_class,
            r.spec_subclass() == self.spec_fields().device_subclass,
            r.spec_protocol() == self.spec_fields().device_protocol,
    {
        ClassCodes::new(
            self.fields.device_class,
            self.fields.device_subclass,
            self.fields.device_protocol,
        )
    }
}

/// The numeric fields of an interface descriptor.
pub struct InterfaceDescriptorFields {
    /// The interface number.
    pub interface_number: u8,
    /// The alternate setting.
    pub alternate_setting: u8,
    /// The number of endpoints.
    pub num_endpoints: u8,
    /// Interface class code.
    pub interface_class: u8,
    /// Interface subclass code.
    pub interface_subclass: u8,
    /// Interface protocol code.
    pub interface_protocol: u8,
}

/// A USB interface descriptor.
pub struct InterfaceDescriptor {
    fields: InterfaceDescriptorFields,
    description: String,
}

impl InterfaceDescriptor {
    /// The numeric fields.
    pub closed spec fn spec_fields(&self) -> InterfaceDescriptorFields {
        self.fields
    }

    /// The description.
    pub closed spec fn spec_description(&self) -> Seq<char> {
        self.description@
    }

    /// An interface descriptor from its fields and the wide string of its
    /// description; fails with `OtherError` if the string does not decode.
    pub fn new(fields: InterfaceDescriptorFields, description: &[u16]) -> (r: Result<
        InterfaceDescriptor,
        D3xxError,
    >)
        ensures
            r is Ok <==> is_wide_c_str(description@),
            r matches Err(e) ==> e == D3xxError::OtherError,
            r matches Ok(d) ==> d.spec_fields() == fields && d.spec_description() == utf16_lossy_of(
                description@.drop_last(),
            ),
    {
        match descriptor_string(description) {
            Ok(description) => Ok(InterfaceDescriptor { fields, description }),
            Err(e) => Err(e),
        }
    }

    /// The interface this descriptor describes.
    pub fn interface_number(&self) -> (r: usize)
        ensures
            r == self.spec_fields().interface_number,
    {
        self.fields.interface_number as usize
    }

    /// The interface class codes.
    pub fn class_codes(&self) -> (r: ClassCodes)
        ensures
            r.spec_class() == self.spec_fields().interface_class,
            r.spec_subclass() == self.spec_fields().interface_subclass,
            r.spec_protocol() == self.spec_fields().interface_protocol,
    {
        ClassCodes::new(
            self.fields.interface_class,
            self.fields.interface_subclass,
            self.fields.interface_protocol,
        )
    }

    /// The number of endpoints used by this interface.
    pub fn endpoints(&self) -> (r: usize)
        ensures
            r == self.spec_fields().num_endpoints,
    {
        self.fields.num_endpoints as usize
    }

    /// The value that selects an alternate setting for this interface.
    pub fn alternate_setting(&self) -> (r: u8)
        ensures
            r == self.spec_fields().alternate_setting,
    {
        self.fields.alternate_setting
    }

    /// A human-readable description of the interface.
    pub fn description(&self) -> (r: &str)
        ensures
            r@ == self.spec_description(),
    {
        self.description.as_str()
    }
}

/// Attribute bit of a configuration: the device is self-powered.
pub const CONFIGURATION_ATTRIBUTE_SELF_POWERED: u8 = 0x40;

/// Attribute bit of a configuration: the device supports remote wakeup.
pub const CONFIGURATION_ATTRIBUTE_REMOTE_WAKEUP: u8 = 0x20;

/// The numeric fields of a configuration descriptor.
pub struct ConfigurationDescriptorFields {
    /// The number of interfaces.
    pub num_interfaces: u8,
    /// The configuration number.
    pub configuration_value: u8,
    /// Attribute bits.
    pub attributes: u8,
    /// Maximum power, in units of 2 mA.
    pub max_power: u8,
}

/// A USB configuration descriptor.
pub struct ConfigurationDescriptor {
    fields: ConfigurationDescriptorFields,
    description: String,
}

impl ConfigurationDescriptor {
    /// The numeric fields.
    pub closed spec fn spec_fields(&self) -> ConfigurationDescriptorFields {
        self.fields
    }

    /// The description.
    pub closed spec fn spec_description(&self) -> Seq<char> {
        self.description@
    }

    /// A configuration descriptor from its fields and the wide string of its
    /// description; fails with `OtherError` if the string does not decode.
    pub fn new(fields: ConfigurationDescriptorFields, description: &[u16]) -> (r: Result<
        ConfigurationDescriptor,
        D3xxError,
    >)
        ensures
            r is Ok <==> is_wide_c_str(description@),
            r matches Err(e) ==> e == D3xxError::OtherError,
            r matches Ok(d) ==> d.spec_fields() == fields && d.spec_description() == utf16_lossy_of(
                description@.drop_last(),
            ),
    {
        match descriptor_string(description) {
            Ok(description) => Ok(ConfigurationDescriptor { fields, description }),
            Err(e) => Err(e),
        }
    }

    /// The number of interfaces supported in this configuration.
    pub fn interfaces(&self) -> (r: usize)
        ensures
            r == self.spec_fields().num_interfaces,
    {
        self.fields.num_interfaces as usize
    }

    /// The configuration number.
    pub fn configuration_value(&self) -> (r: u8)
        ensures
            r == self.spec_fields().configuration_value,
    {
        self.fields.configuration_value
    }

    /// A human-readable description of the configuration.
    pub fn description(&self) -> (r: &str)
        ensures
            r@ == self.spec_description(),
    {
        self.description.as_str()
    }

    /// The maximum power consumption of the device in milliamps.
    pub fn max_power(&self) -> (r: u16)
        ensures
            r == 2 * self.spec_fields().max_power,
    {
        self.fields.max_power as u16 * 2
    }

    /// Whether the device is self-powered.
    pub fn self_powered(&self) -> (r: bool)
        ensures
            r == (self.spec_fields().attributes & CONFIGURATION_ATTRIBUTE_SELF_POWERED != 0),
    {
        self.fields.attributes & CONFIGURATION_ATTRIBUTE_SELF_POWERED != 0
    }

    /// Whether the device supports remote wakeup.
    pub fn remote_wakeup(&self) -> (r: bool)
        ensures
            r == (self.spec_fields().attributes & CONFIGURATION_ATTRIBUTE_REMOTE_WAKEUP != 0),
    {
        self.fields.attributes & CONFIGURATION_ATTRIBUTE_REMOTE_WAKEUP != 0
    }
}

/// A pipe's information as the driver reports it, in plain values.
pub struct PipeInformation {
    /// Pipe type as the driver encodes it.
    pub pipe_type: u32,
    /// Endpoint address.
    pub pipe_id: u8,
    /// Maximum packet size in bytes.
    pub maximum_packet_size: u16,
    /// Polling interval.
    pub interval: u8,
}

/// Information about a pipe: a subset of a USB endpoint descriptor.
pub struct PipeInfo {
    pipe: Pipe,
    pipe_type: PipeType,
    max_packet_size: usize,
    interval: u8,
}

impl PipeInfo {
    /// The pipe.
    pub closed spec fn spec_id(&self) -> Pipe {
        self.pipe
    }

    /// The pipe type.
    pub closed spec fn spec_pipe_type(&self) -> PipeType {
        self.pipe_type
    }

    /// The maximum packet size.
    pub closed spec fn spec_max_packet_size(&self) -> usize {
        self.max_packet_size
    }

    /// The polling interval.
    pub closed spec fn spec_interval(&self) -> u8 {
        self.interval
    }

    /// The information in `info`; fails with `OtherError` if its type or its
    /// endpoint address names nothing known.
    pub fn new(info: PipeInformation) -> (r: Result<PipeInfo, D3xxError>)
        ensures
            r is Ok <==> pipe_type_of(info.pipe_type) is Some && pipe_of_code(info.pipe_id) is Some,
            r matches Err(e) ==> e == D3xxError::OtherError,
            r matches Ok(p) ==> {
                &&& Some(p.spec_pipe_type()) == pipe_type_of(info.pipe_type)
                &&& Some(p.spec_id()) == pipe_of_code(info.pipe_id)
                &&& p.spec_max_packet_size() == info.maximum_packet_size
                &&& p.spec_interval() == info.interval
            },
    {
        let pipe_type = match PipeType::from_raw(info.pipe_type) {
            Some(t) => t,
            None => return Err(D3xxError::OtherError),
        };
        let pipe = match Pipe::try_from(info.pipe_id) {
            Ok(p) => p,
            Err(_) => return Err(D3xxError::OtherError),
        };
        Ok(
            PipeInfo {
                pipe,
                pipe_type,
                max_packet_size: info.maximum_packet_size as usize,
                interval: info.interval,
            },
        )
    }

    /// The type of transfer used for the pipe.
    pub fn pipe_type(&self) -> (r: PipeType)
        ensures
            r == self.spec_pipe_type(),
    {
        self.pipe_type
    }

    /// The pipe ID.
    pub fn id(&self) -> (r: Pipe)
        ensures
            r == self.spec_id(),
    {
        self.pipe
    }

    /// The maximum packet size in bytes.
    pub fn max_packet_size(&self) -> (r: usize)
        ensures
            r == self.spec_max_packet_size(),
    {
        self.max_packet_size
    }

    /// The polling interval for data transfers.
    pub fn interval(&self) -> (r: u8)
        ensures
            r == self.spec_interval(),
    {
        self.interval
    }
}

} // verus!
