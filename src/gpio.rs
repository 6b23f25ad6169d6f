//! GPIO pins of a device: pin selection and register values.
use vstd::prelude::*;

use crate::device::Device;

verus! {

/// GPIO pin, either `Pin0` or `Pin1`.
#[derive(Copy, Clone, Debug, Eq, PartialEq, Hash, Structural)]
pub enum GpioPin {
    /// GPIO pin 0 (GPIO0 in the datasheet).
    Pin0,
    /// GPIO pin 1 (GPIO1 in the datasheet).
    Pin1,
}

/// GPIO direction.
#[derive(Copy, Clone, Debug, Eq, PartialEq, Hash, Structural)]
pub enum Direction {
    /// Input: the pin may be read, not written.
    Input,
    /// Output: the pin may be written, not read.
    Output,
}

/// GPIO level.
#[derive(Copy, Clone, Debug, Eq, PartialEq, Hash, Structural)]
pub enum Level {
    /// Low level (0).
    Low,
    /// High level (1).
    High,
}

/// GPIO pull mode.
#[derive(Copy, Clone, Debug, Eq, PartialEq, Hash, Structural)]
pub enum PullMode {
    /// 50 kOhm pull-down (0).
    PullDown,
    /// High impedance (1).
    HighImpedance,
    /// 50 kOhm pull-up (2).
    PullUp,
}

/// The number of a pin.
pub open spec fn pin_index(p: GpioPin) -> u8 {
    match p {
        GpioPin::Pin0 => 0,
        GpioPin::Pin1 => 1,
    }
}

/// The register bit that selects a pin.
pub open spec fn pin_mask(p: GpioPin) -> u32 {
    match p {
        GpioPin::Pin0 => 1,
        GpioPin::Pin1 => 2,
    }
}

/// The value of a direction in the driver's encoding.
pub open spec fn direction_code(d: Direction) -> u8 {
    match d {
        Direction::Input => 0,
        Direction::Output => 1,
    }
}

/// The value of a level in the driver's encoding.
pub open spec fn level_code(l: Level) -> u8 {
    match l {
        Level::Low => 0,
        Level::High => 1,
    }
}

/// The value of a pull mode in the driver's encoding.
pub open spec fn pull_code(m: PullMode) -> u8 {
    match m {
        PullMode::PullDown => 0,
        PullMode::HighImpedance => 1,
        PullMode::PullUp => 2,
    }
}

impl GpioPin {
    /// The number of this pin.
    pub fn index(self) -> (r: u8)
        ensures
            r == pin_index(self),
    {
        match self {
            GpioPin::Pin0 => 0,
            GpioPin::Pin1 => 1,
        }
    }
}

impl Direction {
    /// The driver's encoding of this direction.
    pub fn code(self) -> (r: u8)
        ensures
            r == direction_code(self),
    {
        match self {
            Direction::Input => 0,
            Direction::Output => 1,
        }
    }
}

impl Level {
    /// The driver's encoding of this level.
    pub fn code(self) -> (r: u8)
        ensures
            r == level_code(self),
    {
        match self {
            Level::Low => 0,
            Level::High => 1,
        }
    }
}

impl PullMode {
    /// The driver's encoding of this pull mode.
    pub fn code(self) -> (r: u8)
        ensures
            r == pull_code(self),
    {
        match self {
            PullMode::PullDown => 0,
            PullMode::HighImpedance => 1,
            PullMode::PullUp => 2,
        }
    }
}

/// Access to one GPIO pin of an open device.
pub struct Gpio {
    handle: usize,
    pin: GpioPin,
}

impl Gpio {
    /// The driver handle of the device this pin belongs to.
    pub closed spec fn spec_handle(&self) -> usize {
        self.handle
    }

    /// The pin.
    pub closed spec fn spec_pin(&self) -> GpioPin {
        self.pin
    }

    /// Access to pin `pin` of `device`.
    pub fn new(device: &Device, pin: GpioPin) -> (r: Gpio)
        ensures
            r.spec_handle() == device.spec_handle(),
            r.spec_pin() == pin,
    {
        Gpio { handle: device.handle(), pin }
    }

    /// The driver handle of the device this pin belongs to.
    pub fn handle(&self) -> (r: usize)
        ensures
            r == self.spec_handle(),
    {
        self.handle
    }

    /// The pin.
    pub fn pin(&self) -> (r: GpioPin)
        ensures
            r == self.spec_pin(),
    {
        self.pin
    }

    /// The register mask that selects this pin.
    pub fn mask(&self) -> (r: u32)
        ensures
            r == pin_mask(self.spec_pin()),
    {
        match self.pin {
            GpioPin::Pin0 => 1,
            GpioPin::Pin1 => 2,
        }
    }

    /// Mask and value that put `code` on this pin and leave the other alone.
    fn masked(&self, code: u8) -> (r: (u32, u32))
        requires
            code <= 2,
        ensures
            r.0 == pin_mask(self.spec_pin()),
            r.1 == code as u32 * pin_mask(self.spec_pin()),
    {
        let mask = self.mask();
        (mask, code as u32 * mask)
    }

    /// Mask and direction word that enable this pin in `direction`.
    pub fn enable_args(&self, direction: Direction) -> (r: (u32, u32))
        ensures
            r.0 == pin_mask(self.spec_pin()),
            r.1 == direction_code(direction) as u32 * pin_mask(self.spec_pin()),
    {
        self.masked(direction.code())
    }

    /// Mask and pull word that set this pin's pull resistors to `pull`.
    pub fn pull_args(&self, pull: PullMode) -> (r: (u32, u32))
        ensures
            r.0 == pin_mask(self.spec_pin()),
            r.1 == pull_code(pull) as u32 * pin_mask(self.spec_pin()),
    {
        self.masked(pull.code())
    }

    /// Mask and level word that drive this pin to `level`.
    pub fn write_args(&self, level: Level) -> (r: (u32, u32))
        ensures
            r.0 == pin_mask(self.spec_pin()),
            r.1 == level_code(level) as u32 * pin_mask(self.spec_pin()),
    {
        self.masked(level.code())
    }

    /// The level of this pin in a GPIO register value: its bit is set or clear.
    pub fn level_from_register(&self, value: u32) -> (r: Level)
        ensures
            r == (if (value >> pin_index(self.spec_pin()) as u32) & 1 == 1 {
                Level::High
            } else {
                Level::Low
            }),
    {
        let bit = (value >> self.pin.index() as u32) & 1;
        if bit == 1 {
            Level::High
        } else {
            Level::Low
        }
    }
}

} // verus!
