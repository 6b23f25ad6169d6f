use d3xx::{
    device_infos, visible_entries, D3xxError, Device, DeviceInfo, DeviceNode, DeviceType,
    Version, FLAG_HISPEED, FLAG_OPENED, FLAG_SUPERSPEED,
};

fn array(s: &[u8], len: usize) -> Vec<u8> {
    assert!(s.len() < len);
    let mut out = vec![0u8; len];
    out[..s.len()].copy_from_slice(s);
    out
}

fn node(flags: u32) -> DeviceNode {
    DeviceNode {
        flags,
        device_type: 0,
        id: 0,
        location_id: 0,
        serial_number: vec![0; 16],
        description: vec![0; 32],
        handle: 0,
    }
}

#[test]
fn device_type_from() {
    assert_eq!(DeviceType::from(600), DeviceType::FT600);
    assert_eq!(DeviceType::from(601), DeviceType::FT601);
    assert_eq!(DeviceType::from(0), DeviceType::Unknown);
}

#[test]
fn device_info_from() {
    let info = DeviceNode {
        flags: 1,
        device_type: 600,
        id: 0x0403_6010,
        location_id: 2,
        serial_number: array(b"ABC123", 16),
        description: array(b"FT601", 32),
        handle: 0,
    };
    let info = DeviceInfo::from_node(&info);
    assert_eq!(info.flags(), 1);
    assert_eq!(info.device_type(), DeviceType::FT600);
    assert_eq!(info.vid(), 0x0403);
    assert_eq!(info.pid(), 0x6010);
    assert_eq!(info.location_id(), 2);
    assert_eq!(info.serial_number(), "ABC123");
    assert_eq!(info.description(), "FT601");
    assert_eq!(info.handle(), 0);
}

#[test]
fn device_info_flags() {
    let info = DeviceInfo::from_node(&node(0));
    assert!(!info.is_open());
    assert!(!info.is_hispeed());
    assert!(!info.is_superspeed());

    let info = DeviceInfo::from_node(&node(FLAG_OPENED));
    assert!(info.is_open());
    assert!(!info.is_hispeed());
    assert!(!info.is_superspeed());

    let info = DeviceInfo::from_node(&node(FLAG_HISPEED));
    assert!(!info.is_open());
    assert!(info.is_hispeed());
    assert!(!info.is_superspeed());

    let info = DeviceInfo::from_node(&node(FLAG_SUPERSPEED));
    assert!(!info.is_open());
    assert!(!info.is_hispeed());
    assert!(info.is_superspeed());
}

#[test]
fn device_info_strings_stop_at_nul_and_replace_invalid_bytes() {
    let mut n = node(0);
    n.serial_number = vec![b'A', 0, b'B', 0];
    n.description = vec![0xFF, b'x', 0];
    let info = DeviceInfo::from_node(&n);
    assert_eq!(info.serial_number(), "A");
    assert_eq!(info.description(), "\u{FFFD}x");
    // Without a nul, the whole buffer is the string.
    n.serial_number = b"XYZ".to_vec();
    assert_eq!(DeviceInfo::from_node(&n).serial_number(), "XYZ");
}

#[test]
fn device_table_is_cut_to_what_was_reported() {
    assert_eq!(visible_entries(3, 5), 3);
    assert_eq!(visible_entries(5, 3), 3);
    assert_eq!(visible_entries(0, 0), 0);
    let nodes = vec![node(1), node(2), node(4)];
    let infos = device_infos(&nodes, 2);
    assert_eq!(infos.len(), 2);
    assert_eq!(infos[0].flags(), 1);
    assert_eq!(infos[1].flags(), 2);
    assert_eq!(device_infos(&nodes, 10).len(), 3);
}

#[test]
fn open_result() {
    assert_eq!(Device::from_open(0, 0).err(), Some(D3xxError::DeviceNotFound));
    assert_eq!(Device::from_open(3, 0x55).err(), Some(D3xxError::DeviceNotOpened));
    assert_eq!(Device::from_open(0, 0x55).unwrap().handle(), 0x55);
}

#[test]
fn version_fields() {
    let v = Version::new(0x0001_0203);
    assert_eq!(v.major(), 1);
    assert_eq!(v.minor(), 2);
    assert_eq!(v.build(), 0x0203);
    let v = Version::new(0xFF12_3456);
    assert_eq!(v.major(), 0x12);
    assert_eq!(v.minor(), 0x34);
    assert_eq!(v.build(), 0x3456);
}
