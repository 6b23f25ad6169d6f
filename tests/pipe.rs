use d3xx::{Device, Direction, GpioPin, Level, Pipe, PullMode, UnknownPipe};

const ALL_PIPES: [Pipe; 8] = [
    Pipe::In0,
    Pipe::In1,
    Pipe::In2,
    Pipe::In3,
    Pipe::Out0,
    Pipe::Out1,
    Pipe::Out2,
    Pipe::Out3,
];

#[test]
fn pipeid_try_from() {
    assert_eq!(Pipe::try_from(0x82), Ok(Pipe::In0));
    assert_eq!(Pipe::try_from(0x83), Ok(Pipe::In1));
    assert_eq!(Pipe::try_from(0x84), Ok(Pipe::In2));
    assert_eq!(Pipe::try_from(0x85), Ok(Pipe::In3));
    assert_eq!(Pipe::try_from(0x02), Ok(Pipe::Out0));
    assert_eq!(Pipe::try_from(0x03), Ok(Pipe::Out1));
    assert_eq!(Pipe::try_from(0x04), Ok(Pipe::Out2));
    assert_eq!(Pipe::try_from(0x05), Ok(Pipe::Out3));
    assert!(Pipe::try_from(0x00).is_err());
    assert!(Pipe::try_from(0x01).is_err());
    assert!(Pipe::try_from(0x06).is_err());
    assert!(Pipe::try_from(0x81).is_err());
    assert!(Pipe::try_from(0x86).is_err());
    assert!(Pipe::try_from(0xFF).is_err());
}

#[test]
fn pipe_is_in() {
    assert!(Pipe::In0.is_in());
    assert!(Pipe::In1.is_in());
    assert!(Pipe::In2.is_in());
    assert!(Pipe::In3.is_in());
    assert!(!Pipe::Out0.is_in());
    assert!(!Pipe::Out1.is_in());
    assert!(!Pipe::Out2.is_in());
    assert!(!Pipe::Out3.is_in());
}

#[test]
fn pipe_is_out() {
    assert!(!Pipe::In0.is_out());
    assert!(!Pipe::In1.is_out());
    assert!(!Pipe::In2.is_out());
    assert!(!Pipe::In3.is_out());
    assert!(Pipe::Out0.is_out());
    assert!(Pipe::Out1.is_out());
    assert!(Pipe::Out2.is_out());
    assert!(Pipe::Out3.is_out());
}

#[test]
fn every_pipe_has_exactly_one_direction() {
    for p in ALL_PIPES {
        assert!(p.is_in() != p.is_out());
    }
}

#[test]
fn pipe_codes_round_trip() {
    for p in ALL_PIPES {
        assert_eq!(Pipe::try_from(u8::from(p)), Ok(p));
        assert_eq!(p.code(), u8::from(p));
    }
    assert_eq!(Pipe::try_from(0x42), Err(UnknownPipe { code: 0x42 }));
    assert_eq!(Pipe::In2.number(), 2);
    assert_eq!(Pipe::Out3.number(), 3);
}

#[test]
fn pipe_and_gpio_access_keep_the_handle() {
    let device = Device::with_handle(0x1234);
    let pipe = device.pipe(Pipe::Out1);
    assert_eq!(pipe.id(), Pipe::Out1);
    assert_eq!(pipe.handle(), 0x1234);
    let gpio = device.gpio(GpioPin::Pin1);
    assert_eq!(gpio.pin(), GpioPin::Pin1);
    assert_eq!(gpio.handle(), 0x1234);
    assert_eq!(device.into_handle(), 0x1234);
}

#[test]
fn gpio_register_words() {
    let device = Device::with_handle(1);
    let pin0 = device.gpio(GpioPin::Pin0);
    let pin1 = device.gpio(GpioPin::Pin1);
    assert_eq!(pin0.mask(), 1);
    assert_eq!(pin1.mask(), 2);
    assert_eq!(pin0.enable_args(Direction::Output), (1, 1));
    assert_eq!(pin1.enable_args(Direction::Output), (2, 2));
    assert_eq!(pin1.enable_args(Direction::Input), (2, 0));
    assert_eq!(pin1.write_args(Level::High), (2, 2));
    assert_eq!(pin0.write_args(Level::Low), (1, 0));
    assert_eq!(pin1.pull_args(PullMode::PullUp), (2, 4));
    assert_eq!(pin0.pull_args(PullMode::HighImpedance), (1, 1));
    assert_eq!(pin0.level_from_register(0b10), Level::Low);
    assert_eq!(pin1.level_from_register(0b10), Level::High);
    assert_eq!(pin0.level_from_register(0b11), Level::High);
}
