use d3xx::configuration::{
    ChannelConfiguration, ChipConfiguration, ChipConfigurationFields, DataTransferConfig,
    DriveStrength, FifoClock, FifoMode, OptionalFeatures, PinDriveStrengths, PowerConfig,
};
use d3xx::{D3xxError, Pipe};

fn part(s: &str) -> Vec<u8> {
    let mut out = vec![0u8, 0x03];
    for u in s.encode_utf16() {
        out.extend_from_slice(&u.to_le_bytes());
    }
    out[0] = out.len() as u8;
    out
}

fn block(m: &str, p: &str, s: &str) -> [u8; 128] {
    let mut bytes = part(m);
    bytes.extend(part(p));
    bytes.extend(part(s));
    let mut out = [0u8; 128];
    out[..bytes.len()].copy_from_slice(&bytes);
    out
}

fn fields(strings: [u8; 128]) -> ChipConfigurationFields {
    ChipConfigurationFields {
        vendor_id: 0x0403,
        product_id: 0x601F,
        string_descriptors: strings,
        interrupt_latency: 9,
        power_attributes: 0xE0,
        power_consumption: 48,
        fifo_clock: 0,
        fifo_mode: 1,
        channel_config: 0,
        optional_features: 0x0005,
        battery_charging: 0xE4,
        msio_control: 0x31,
        gpio_control: 0xB00,
    }
}

#[test]
fn chip_configuration_reads_all_parts() {
    let mut config = ChipConfiguration::new(fields(block("FTDI", "FT601", "ABC123"))).unwrap();
    assert_eq!(config.vendor_id(), 0x0403);
    assert_eq!(config.product_id(), 0x601F);
    assert_eq!(config.interrupt_latency(), 9);
    assert_eq!(config.string_descriptor().manufacturer(), "FTDI");
    assert_eq!(config.string_descriptor().product(), "FT601");
    assert_eq!(config.string_descriptor().serial_number(), "ABC123");
    assert_eq!(config.power_config().max_power(), 96);
    assert!(config.power_config().self_powered());
    assert_eq!(*config.data_transfer().fifo_clock(), FifoClock::Clock100Mhz);
    assert_eq!(*config.data_transfer().fifo_mode(), FifoMode::Mode600);
    assert_eq!(*config.data_transfer().channel_config(), ChannelConfiguration::Four);
    assert_eq!(*config.pin_drive_strengths().fifo_data(), DriveStrength::Ohm35);
    assert!(config.optional_features().battery_charging().is_some());

    config.set_interrupt_latency(16);
    assert_eq!(config.interrupt_latency(), 16);
    config.string_descriptor_mut().set_serial_number("XYZ");
    assert_eq!(config.string_descriptor().serial_number(), "XYZ");
    let _ = config.power_config_mut();
    let _ = config.pin_drive_strengths_mut();
    let _ = config.data_transfer_mut();
    let _ = config.optional_features_mut();
}

#[test]
fn chip_configuration_rejects_bad_fields() {
    let mut bad = fields(block("A", "B", "C"));
    bad.fifo_clock = 2;
    assert!(matches!(ChipConfiguration::new(bad), Err(D3xxError::OtherError)));
    let mut overrun = [0u8; 128];
    overrun[0] = 200;
    assert!(matches!(ChipConfiguration::new(fields(overrun)), Err(D3xxError::OtherError)));
    let mut short = [0u8; 128];
    short[0] = 1;
    assert!(matches!(ChipConfiguration::new(fields(short)), Err(D3xxError::OtherError)));
}

#[test]
fn string_descriptor_block_round_trip() {
    let config = ChipConfiguration::new(fields(block("FTDI", "FT601", "ABC123"))).unwrap();
    let b = config.string_descriptor().as_ffi_descriptor().unwrap();
    assert_eq!(b, block("FTDI", "FT601", "ABC123"));
    assert_eq!(&b[..4], &[10, 0x03, b'F', 0]);
}

#[test]
fn string_descriptor_block_truncates_and_may_overflow() {
    let mut config = ChipConfiguration::new(fields(block("", "", ""))).unwrap();
    let s = config.string_descriptor_mut();
    s.set_manufacturer(&"m".repeat(40));
    s.set_product("p");
    s.set_serial_number("s");
    let b = s.as_ffi_descriptor().unwrap();
    // The manufacturer keeps 30 units.
    assert_eq!(b[0], 62);
    assert_eq!(b[62], 4);
    s.set_product(&"p".repeat(62));
    s.set_serial_number(&"s".repeat(30));
    assert_eq!(s.as_ffi_descriptor(), None);
}

#[test]
fn data_transfer_config_decodes() {
    let c = DataTransferConfig::new(1, 0, 4).unwrap();
    assert_eq!(*c.fifo_clock(), FifoClock::Clock66Mhz);
    assert_eq!(*c.fifo_mode(), FifoMode::Mode245);
    assert_eq!(*c.channel_config(), ChannelConfiguration::OneInPipe);
    assert!(matches!(DataTransferConfig::new(0, 2, 0), Err(D3xxError::OtherError)));
    assert!(matches!(DataTransferConfig::new(0, 0, 5), Err(D3xxError::OtherError)));
}

#[test]
fn pin_drive_strengths_decode() {
    let s = PinDriveStrengths::new(0x31, 0xB00).unwrap();
    assert_eq!(*s.fifo_data(), DriveStrength::Ohm35);
    assert_eq!(*s.fifo_clock(), DriveStrength::Ohm18);
    assert_eq!(*s.gpio0(), DriveStrength::Ohm18);
    assert_eq!(*s.gpio1(), DriveStrength::Ohm25);
}

#[test]
fn power_config_decodes() {
    let p = PowerConfig::new(0x60, 250);
    assert!(p.self_powered());
    assert!(!p.bus_powered());
    assert!(p.remote_wakeup());
    assert_eq!(p.max_power(), 500);
    let p = PowerConfig::new(0x00, 0xFFFF);
    assert!(p.bus_powered());
    assert!(!p.remote_wakeup());
    assert_eq!(p.max_power(), 0x1FFFE);
}

#[test]
fn optional_features_decode() {
    let f = OptionalFeatures::new(0x0005, 0xE4);
    let b = f.battery_charging().unwrap();
    assert_eq!(b.dcp(), 3);
    assert_eq!(b.cdp(), 2);
    assert_eq!(b.sdp(), 1);
    assert!(f.notification_message_enabled(Pipe::In0));
    assert!(!f.notification_message_enabled(Pipe::In1));
    assert!(f.underrun_check_enabled());
    assert!(!f.underrun_disabled(Pipe::In0));
    assert!(!f.all_disabled());
    assert!(!f.all_enabled());

    let f = OptionalFeatures::new(0x0202, 0xFF);
    assert!(f.battery_charging().is_none());
    assert!(!f.underrun_check_enabled());
    assert!(f.underrun_disabled(Pipe::In3));
    assert!(!f.underrun_disabled(Pipe::In2));

    assert!(OptionalFeatures::new(0, 0).all_disabled());
    assert!(OptionalFeatures::new(0xFFFF, 0).all_enabled());
}
