//! Drive strengths of the FIFO and GPIO pins.
use vstd::prelude::*;

use crate::error::D3xxError;

verus! {

/// Drive strength of a pin.
#[derive(Debug, Clone, Copy, Eq, PartialEq, Hash, Structural)]
pub enum DriveStrength {
    /// 50-Ohm drive strength (0).
    Ohm50,
    /// 35-Ohm drive strength (1).
    Ohm35,
    /// 25-Ohm drive strength (2).
    Ohm25,
    /// 18-Ohm drive strength (3).
    Ohm18,
}

/// The drive strength encoded in the two bits of `v`.
pub open spec fn drive_strength_of(v: u32) -> DriveStrength {
    if v == 0 {
        DriveStrength::Ohm50
    } else if v == 1 {
        DriveStrength::Ohm35
    } else if v == 2 {
        DriveStrength::Ohm25
    } else {
        DriveStrength::Ohm18
    }
}

/// The drive strength encoded in the two bits at `shift` in `word`.
fn field(word: u32, shift: u32) -> (r: DriveStrength)
    requires
        shift < 32,
    ensures
        r == drive_strength_of((word >> shift) & 3),
{
    let v = (word >> shift) & 3;
    if v == 0 {
        DriveStrength::Ohm50
    } else if v == 1 {
        DriveStrength::Ohm35
    } else if v == 2 {
        DriveStrength::Ohm25
    } else {
        DriveStrength::Ohm18
    }
}

/// Drive strengths of the FIFO data and clock pins and of the two GPIOs.
pub struct PinDriveStrengths {
    fifo_data: DriveStrength,
    fifo_clock: DriveStrength,
    gpio0: DriveStrength,
    gpio1: DriveStrength,
}

impl PinDriveStrengths {
    /// FIFO data drive strength.
    pub closed spec fn spec_fifo_data(&self) -> DriveStrength {
        self.fifo_data
    }

    /// FIFO clock drive strength.
    pub closed spec fn spec_fifo_clock(&self) -> DriveStrength {
        self.fifo_clock
    }

    /// GPIO0 drive strength.
    pub closed spec fn spec_gpio0(&self) -> DriveStrength {
        self.gpio0
    }

    /// GPIO1 drive strength.
    pub closed spec fn spec_gpio1(&self) -> DriveStrength {
        self.gpio1
    }

    /// The strengths in the MSIO and GPIO control words: FIFO data in bits
    /// 0-1 and FIFO clock in bits 4-5 of `msio`, GPIO0 in bits 8-9 and GPIO1
    /// in bits 10-11 of `gpio`. Every two-bit value is a strength, so this
    /// always succeeds.
    pub fn new(msio: u32, gpio: u32) -> (r: Result<PinDriveStrengths, D3xxError>)
        ensures
            r matches Ok(s) && s.spec_fifo_data() == drive_strength_of(msio & 3)
                && s.spec_fifo_clock() == drive_strength_of((msio >> 4) & 3)
                && s.spec_gpio0() == drive_strength_of((gpio >> 8) & 3)
                && s.spec_gpio1() == drive_strength_of((gpio >> 10) & 3),
    {
        proof {
            assert(msio >> 0u32 == msio) by (bit_vector);
        }
        Ok(
            PinDriveStrengths {
                fifo_data: field(msio, 0),
                fifo_clock: field(msio, 4),
                gpio0: field(gpio, 8),
                gpio1: field(gpio, 10),
            },
        )
    }

    /// The FIFO data drive strength.
    pub fn fifo_data(&self) -> (r: &DriveStrength)
        ensures
            *r == self.spec_fifo_data(),
    {
        &self.fifo_data
    }

    /// The FIFO clock drive strength.
    pub fn fifo_clock(&self) -> (r: &DriveStrength)
        ensures
            *r == self.spec_fifo_clock(),
    {
        &self.fifo_clock
    }

    /// The GPIO0 drive strength.
    pub fn gpio0(&self) -> (r: &DriveStrength)
        ensures
            *r == self.spec_gpio0(),
    {
        &self.gpio0
    }

    /// The GPIO1 drive strength.
    pub fn gpio1(&self) -> (r: &DriveStrength)
        ensures
            *r == self.spec_gpio1(),
    {
        &self.gpio1
    }
}

} // verus!
