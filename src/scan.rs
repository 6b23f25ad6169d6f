//! Device enumeration: the driver's device table, turned into [`DeviceInfo`]s.
use vstd::prelude::*;

use crate::device::Device;
use crate::error::{error_of, D3xxError, STATUS_SUCCESS};

verus! {

/// Device flag: the device is open, by this process or another.
pub const FLAG_OPENED: u32 = 1;

/// Device flag: the device runs at high speed (USB 2).
pub const FLAG_HISPEED: u32 = 2;

/// Device flag: the device runs at super speed (USB 3).
pub const FLAG_SUPERSPEED: u32 = 4;

/// The type of an `FT60x` device.
#[derive(Debug, Copy, Clone, PartialEq, Eq, Structural)]
pub enum DeviceType {
    /// A type this crate does not know.
    Unknown,
    /// `FT600` device.
    FT600,
    /// `FT601` device.
    FT601,
}

/// The device type the driver reports as `value`.
pub open spec fn device_type_of(value: u32) -> DeviceType {
    if value == 600 {
        DeviceType::FT600
    } else if value == 601 {
        DeviceType::FT601
    } else {
        DeviceType::Unknown
    }
}

impl From<u32> for DeviceType {
    fn from(value: u32) -> (r: Self) {
        if value == 600 {
            DeviceType::FT600
        } else if value == 601 {
            DeviceType::FT601
        } else {
            DeviceType::Unknown
        }
    }
}

impl vstd::std_specs::convert::FromSpecImpl<u32> for DeviceType {
    open spec fn obeys_from_spec() -> bool {
        true
    }

    open spec fn from_spec(value: u32) -> Self {
        device_type_of(value)
    }
}

/// The bytes of a nul-terminated string held in `b`: those before the first
/// nul, or all of them when there is none.
pub open spec fn c_str(b: Seq<u8>) -> Seq<u8>
    decreases b.len(),
{
    if b.len() == 0 || b[0] == 0 {
        Seq::empty()
    } else {
        seq![b[0]] + c_str(b.skip(1))
    }
}

/// What `String::from_utf8_lossy` makes of `bytes`.
pub uninterp spec fn utf8_lossy_of(bytes: Seq<u8>) -> Seq<char>;

/// Relies on `String::from_utf8_lossy`: the text of `bytes`, with each invalid
/// sequence replaced by U+FFFD; the result depends on the bytes alone.
#[verifier::external_body]
fn utf8_lossy(bytes: &[u8]) -> (r: String)
    ensures
        r@ == utf8_lossy_of(bytes@),
{
    String::from_utf8_lossy(bytes).into_owned()
}

/// The bytes of the nul-terminated string held in `b`.
pub fn c_str_bytes(b: &[u8]) -> (r: Vec<u8>)
    ensures
        r@ == c_str(b@),
{
    let mut r: Vec<u8> = Vec::new();
    let mut i: usize = 0;
    proof {
        assert(b@.skip(0) =~= b@);
        assert(r@ + c_str(b@) =~= c_str(b@));
    }
    while i < b.len()
        invariant
            i <= b.len(),
            c_str(b@) == r@ + c_str(b@.skip(i as int)),
        decreases b.len() - i,
    {
        if b[i] == 0 {
            proof {
                assert(c_str(b@.skip(i as int)) == Seq::<u8>::empty());
                assert(r@ + Seq::<u8>::empty() =~= r@);
            }
            return r;
        }
        proof {
            assert(b@.skip(i as int).skip(1) =~= b@.skip(i as int + 1));
            assert(r@.push(b[i as int]) + c_str(b@.skip(i as int + 1)) =~= r@ + (seq![b[i as int]]
                + c_str(b@.skip(i as int + 1))));
        }
        r.push(b[i]);
        i = i + 1;
    }
    proof {
        assert(c_str(b@.skip(i as int)) == Seq::<u8>::empty());
        assert(r@ + Seq::<u8>::empty() =~= r@);
    }
    r
}

/// One entry of the driver's device table, as plain values.
pub struct DeviceNode {
    /// Device flags (see [`FLAG_OPENED`] and the other flags).
    pub flags: u32,
    /// Device type as the driver encodes it.
    pub device_type: u32,
    /// Vendor ID in the upper 16 bits, product ID in the lower 16.
    pub id: u32,
    /// Location ID.
    pub location_id: u32,
    /// The serial number, as a nul-terminated byte string.
    pub serial_number: Vec<u8>,
    /// The description, as a nul-terminated byte string.
    pub description: Vec<u8>,
    /// Handle of the device, if the driver holds it open.
    pub handle: usize,
}

/// Information about a connected `FT60x` device.
#[derive(Debug, Clone, PartialEq, Eq)]
pub struct DeviceInfo {
    flags: u32,
    device_type: DeviceType,
    vid: u16,
    pid: u16,
    location_id: u32,
    serial_number: String,
    description: String,
    handle: usize,
}

/// `info` holds what the table entry `node` says.
pub open spec fn describes(info: DeviceInfo, node: DeviceNode) -> bool {
    &&& info.spec_flags() == node.flags
    &&& info.spec_device_type() == device_type_of(node.device_type)
    &&& info.spec_vid() == (node.id >> 16) as u16
    &&& info.spec_pid() == (node.id & 0xffff) as u16
    &&& info.spec_location_id() == node.location_id
    &&& info.spec_serial_number() == utf8_lossy_of(c_str(node.serial_number@))
    &&& info.spec_description() == utf8_lossy_of(c_str(node.description@))
    &&& info.spec_handle() == node.handle
}

impl DeviceInfo {
    /// Device flags.
    pub closed spec fn spec_flags(&self) -> u32 {
        self.flags
    }

    /// Device type.
    pub closed spec fn spec_device_type(&self) -> DeviceType {
        self.device_type
    }

    /// Vendor ID.
    pub closed spec fn spec_vid(&self) -> u16 {
        self.vid
    }

    /// Product ID.
    pub closed spec fn spec_pid(&self) -> u16 {
        self.pid
    }

    /// Location ID.
    pub closed spec fn spec_location_id(&self) -> u32 {
        self.location_id
    }

    /// Serial number.
    pub closed spec fn spec_serial_number(&self) -> Seq<char> {
        self.serial_number@
    }

    /// Description.
    pub closed spec fn spec_description(&self) -> Seq<char> {
        self.description@
    }

    /// Handle.
    pub closed spec fn spec_handle(&self) -> usize {
        self.handle
    }

    /// The information in one entry of the driver's device table.
    pub fn from_node(node: &DeviceNode) -> (r: DeviceInfo)
        ensures
            describes(r, *node),
    {
        let serial = c_str_bytes(node.serial_number.as_slice());
        let description = c_str_bytes(node.description.as_slice());
        DeviceInfo {
            flags: node.flags,
            device_type: DeviceType::from(node.device_type),
            vid: (node.id >> 16) as u16,
            pid: (node.id & 0xffff) as u16,
            location_id: node.location_id,
            serial_number: utf8_lossy(serial.as_slice()),
            description: utf8_lossy(description.as_slice()),
            handle: node.handle,
        }
    }

    /// Check if the device is open, either by this process or another.
    pub fn is_open(&self) -> (r: bool)
        ensures
            r == (self.spec_flags() & FLAG_OPENED != 0),
    {
        self.flags & FLAG_OPENED != 0
    }

    /// Check if the device is a high-speed device.
    pub fn is_hispeed(&self) -> (r: bool)
        ensures
            r == (self.spec_flags() & FLAG_HISPEED != 0),
    {
        self.flags & FLAG_HISPEED != 0
    }

    /// Check if the device is a superspeed device.
    pub fn is_superspeed(&self) -> (r: bool)
        ensures
            r == (self.spec_flags() & FLAG_SUPERSPEED != 0),
    {
        self.flags & FLAG_SUPERSPEED != 0
    }

    /// The flags set by the device.
    pub fn flags(&self) -> (r: u32)
        ensures
            r == self.spec_flags(),
    {
        self.flags
    }

    /// The device's type.
    pub fn device_type(&self) -> (r: DeviceType)
        ensures
            r == self.spec_device_type(),
    {
        self.device_type
    }

    /// The device's vendor ID.
    pub fn vid(&self) -> (r: u16)
        ensures
            r == self.spec_vid(),
    {
        self.vid
    }

    /// The device's product ID.
    pub fn pid(&self) -> (r: u16)
        ensures
            r == self.spec_pid(),
    {
        self.pid
    }

    /// The device's location ID.
    pub fn location_id(&self) -> (r: u32)
        ensures
            r == self.spec_location_id(),
    {
        self.location_id
    }

    /// The device's serial number.
    pub fn serial_number(&self) -> (r: &str)
        ensures
            r@ == self.spec_serial_number(),
    {
        self.serial_number.as_str()
    }

    /// The device's description.
    pub fn description(&self) -> (r: &str)
        ensures
            r@ == self.spec_description(),
    {
        self.description.as_str()
    }

    /// The device's handle, if the driver holds it open.
    pub fn handle(&self) -> (r: usize)
        ensures
            r == self.spec_handle(),
    {
        self.handle
    }
}

/// How many entries of a device table can be read: the driver may report
/// more entries than the buffer made for the count it gave before.
pub fn visible_entries(capacity: usize, reported: u32) -> (r: usize)
    ensures
        r == visible_entries_spec(capacity as nat, reported),
{
    if (reported as u64) < (capacity as u64) {
        reported as usize
    } else {
        capacity
    }
}

/// The devices in a table of which the driver reported `reported` entries:
/// the first `min(reported, nodes.len())` entries, in order.
pub fn device_infos(nodes: &Vec<DeviceNode>, reported: u32) -> (r: Vec<DeviceInfo>)
    ensures
        r.len() == visible_entries_spec(nodes.len() as nat, reported),
        forall|i: int| 0 <= i < r.len() ==> describes(#[trigger] r[i], nodes[i]),
{
    let n = visible_entries(nodes.len(), reported);
    let mut r: Vec<DeviceInfo> = Vec::new();
    let mut i: usize = 0;
    while i < n
        invariant
            n <= nodes.len(),
            n == visible_entries_spec(nodes.len() as nat, reported),
            i <= n,
            r.len() == i,
            forall|j: int| 0 <= j < i ==> describes(#[trigger] r[j], nodes[j]),
        decreases n - i,
    {
        r.push(DeviceInfo::from_node(&nodes[i]));
        i = i + 1;
    }
    r
}

/// The smaller of the capacity and the count reported.
pub open spec fn visible_entries_spec(capacity: nat, reported: u32) -> nat {
    if (reported as nat) < capacity {
        reported as nat
    } else {
        capacity
    }
}

impl Device {
    /// The device that an open by serial number yielded, given the status
    /// and the handle the driver reported.
    ///
    /// A failure status gives its error; success with a null handle means
    /// that no device has that serial number.
    pub fn from_open(status: u32, handle: usize) -> (r: Result<Device, D3xxError>)
        ensures
            status != STATUS_SUCCESS ==> r == Err::<Device, D3xxError>(error_of(status)),
            status == STATUS_SUCCESS && handle == 0 ==> r == Err::<Device, D3xxError>(
                D3xxError::DeviceNotFound,
            ),
            status == STATUS_SUCCESS && handle != 0 ==> (r matches Ok(d) && d.spec_handle()
                == handle),
    {
        if status != STATUS_SUCCESS {
            Err(D3xxError::from(status))
        } else if handle == 0 {
            Err(D3xxError::DeviceNotFound)
        } else {
            Ok(Device::with_handle(handle))
        }
    }
}

} // verus!
