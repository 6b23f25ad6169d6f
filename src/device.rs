//! An open device, as the driver handle that names it.
use vstd::prelude::*;

use crate::gpio::{Gpio, GpioPin};
use crate::pipe::{Pipe, PipeIo};

verus! {

/// An open D3XX device, named by the handle that the driver returned when it
/// was opened.
///
/// A device may move between threads but must not be used from two threads
/// at once: the driver gives no guarantee of thread safety, so callers that
/// share a device put it behind a lock of their own.
#[derive(Debug)]
pub struct Device {
    handle: usize,
}

impl Device {
    /// The handle held.
    pub closed spec fn spec_handle(&self) -> usize {
        self.handle
    }

    /// A device for a handle that the driver returned on open.
    ///
    /// The handle must be valid, open, and not in use elsewhere for as long
    /// as the device is used.
    pub fn with_handle(handle: usize) -> (r: Device)
        ensures
            r.spec_handle() == handle,
    {
        Device { handle }
    }

    /// The device's handle.
    pub fn handle(&self) -> (r: usize)
        ensures
            r == self.spec_handle(),
    {
        self.handle
    }

    /// The device's handle, consuming the device.
    pub fn into_handle(self) -> (r: usize)
        ensures
            r == self.spec_handle(),
    {
        self.handle
    }

    /// Access to pipe `id`.
    pub fn pipe(&self, id: Pipe) -> (r: PipeIo)
        ensures
            r.spec_handle() == self.spec_handle(),
            r.spec_id() == id,
    {
        PipeIo::new(self, id)
    }

    /// Access to GPIO pin `pin`.
    pub fn gpio(&self, pin: GpioPin) -> (r: Gpio)
        ensures
            r.spec_handle() == self.spec_handle(),
            r.spec_pin() == pin,
    {
        Gpio::new(self, pin)
    }
}

} // verus!
