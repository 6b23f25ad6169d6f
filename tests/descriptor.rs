use d3xx::{
    descriptor_string, ClassCodes, ConfigurationDescriptor, ConfigurationDescriptorFields,
    D3xxError, DeviceDescriptor, DeviceDescriptorFields, Pipe, PipeInfo, PipeInformation,
    PipeType, UsbVersion,
};

#[test]
fn pipe_info_try_from() {
    let info = PipeInformation {
        pipe_type: 0,
        pipe_id: 0x82,
        maximum_packet_size: 64,
        interval: 0,
    };
    let info = PipeInfo::new(info).unwrap();
    assert_eq!(info.pipe_type(), PipeType::Control);
    assert_eq!(info.id(), Pipe::In0);
    assert_eq!(info.max_packet_size(), 64);
    assert_eq!(info.interval(), 0);
}

#[test]
fn class_code() {
    let codes = ClassCodes::new(0x00, 0x00, 0x00);
    assert_eq!(codes.class(), 0x00);
    assert_eq!(codes.subclass(), 0x00);
    assert_eq!(codes.protocol(), 0x00);

    let codes = ClassCodes::new(0x01, 0x02, 0x03);
    assert_eq!(codes.class(), 0x01);
    assert_eq!(codes.subclass(), 0x02);
    assert_eq!(codes.protocol(), 0x03);
}

#[test]
fn usb_version() {
    let version = UsbVersion(0x0200);
    assert_eq!(version.major(), 2);
    assert_eq!(version.minor(), 0);

    let version = UsbVersion(0x0210);
    assert_eq!(version.major(), 2);
    assert_eq!(version.minor(), 16);
}

#[test]
fn pipe_info_rejects_unknown_pipe_and_type() {
    let bad_pipe = PipeInformation {
        pipe_type: 2,
        pipe_id: 0x81,
        maximum_packet_size: 512,
        interval: 1,
    };
    assert_eq!(PipeInfo::new(bad_pipe).err(), Some(D3xxError::OtherError));
    let bad_type = PipeInformation {
        pipe_type: 4,
        pipe_id: 0x02,
        maximum_packet_size: 512,
        interval: 1,
    };
    assert_eq!(PipeInfo::new(bad_type).err(), Some(D3xxError::OtherError));
    let bulk = PipeInformation {
        pipe_type: 2,
        pipe_id: 0x05,
        maximum_packet_size: 1024,
        interval: 3,
    };
    let info = PipeInfo::new(bulk).unwrap();
    assert_eq!(info.pipe_type(), PipeType::Bulk);
    assert_eq!(info.id(), Pipe::Out3);
    assert_eq!(info.max_packet_size(), 1024);
    assert_eq!(info.interval(), 3);
}

fn wide(s: &str) -> Vec<u16> {
    s.encode_utf16().collect()
}

#[test]
fn descriptor_string_needs_a_single_terminating_nul() {
    let mut units = wide("FTDI");
    units.push(0);
    assert_eq!(descriptor_string(&units).unwrap(), "FTDI");
    assert_eq!(descriptor_string(&[0]).unwrap(), "");
    assert_eq!(descriptor_string(&wide("FTDI")), Err(D3xxError::OtherError));
    assert_eq!(descriptor_string(&[0x41, 0, 0]), Err(D3xxError::OtherError));
    assert_eq!(descriptor_string(&[]), Err(D3xxError::OtherError));
    // A lone surrogate decodes to the replacement character.
    assert_eq!(descriptor_string(&[0xD800, 0]).unwrap(), "\u{FFFD}");
}

#[test]
fn device_descriptor_fields_and_strings() {
    let fields = DeviceDescriptorFields {
        bcd_usb: 0x0310,
        device_class: 0xEF,
        device_subclass: 0x02,
        device_protocol: 0x01,
        max_packet_size0: 9,
        vendor_id: 0x0403,
        product_id: 0x601F,
    };
    let mut serial = wide("ABC123");
    serial.push(0);
    let mut maker = wide("FTDI");
    maker.push(0);
    let mut product = wide("FT601 32-bit FIFO IC");
    product.push(0);
    let d = DeviceDescriptor::new(fields, &serial, &maker, &product).unwrap();
    assert_eq!(d.serial_number(), "ABC123");
    assert_eq!(d.manufacturer(), "FTDI");
    assert_eq!(d.product(), "FT601 32-bit FIFO IC");
    assert_eq!(d.vendor_id(), 0x0403);
    assert_eq!(d.product_id(), 0x601F);
    assert_eq!(d.usb_version().major(), 3);
    assert_eq!(d.usb_version().minor(), 0x10);
    assert_eq!(d.max_packet_size(), 9);
    assert_eq!(d.class_codes(), ClassCodes::new(0xEF, 0x02, 0x01));

    let fields = DeviceDescriptorFields {
        bcd_usb: 0x0200,
        device_class: 0,
        device_subclass: 0,
        device_protocol: 0,
        max_packet_size0: 64,
        vendor_id: 1,
        product_id: 2,
    };
    let unterminated = wide("ABC");
    assert!(matches!(
        DeviceDescriptor::new(fields, &serial, &maker, &unterminated),
        Err(D3xxError::OtherError)
    ));
}

#[test]
fn configuration_descriptor_power_and_attributes() {
    let fields = ConfigurationDescriptorFields {
        num_interfaces: 2,
        configuration_value: 1,
        attributes: 0xE0,
        max_power: 250,
    };
    let d = ConfigurationDescriptor::new(fields, &[0x43, 0]).unwrap();
    assert_eq!(d.interfaces(), 2);
    assert_eq!(d.configuration_value(), 1);
    assert_eq!(d.description(), "C");
    assert_eq!(d.max_power(), 500);
    assert!(d.self_powered());
    assert!(d.remote_wakeup());

    let fields = ConfigurationDescriptorFields {
        num_interfaces: 1,
        configuration_value: 1,
        attributes: 0x80,
        max_power: 48,
    };
    let d = ConfigurationDescriptor::new(fields, &[0]).unwrap();
    assert_eq!(d.max_power(), 96);
    assert!(!d.self_powered());
    assert!(!d.remote_wakeup());
}
