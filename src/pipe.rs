//! Pipe identifiers and per-pipe access.
use vstd::prelude::*;

use crate::device::Device;

verus! {

/// Identifies a unique read/write endpoint on a device.
///
/// D3XX devices have 4 input and 4 output endpoints. The direction is relative
/// to the host: an input pipe is read from, an output pipe is written to.
#[derive(Copy, Clone, Debug, Eq, PartialEq, Hash, Structural)]
pub enum Pipe {
    /// Input pipe 0 (`0x82`).
    In0,
    /// Input pipe 1 (`0x83`).
    In1,
    /// Input pipe 2 (`0x84`).
    In2,
    /// Input pipe 3 (`0x85`).
    In3,
    /// Output pipe 0 (`0x02`).
    Out0,
    /// Output pipe 1 (`0x03`).
    Out1,
    /// Output pipe 2 (`0x04`).
    Out2,
    /// Output pipe 3 (`0x05`).
    Out3,
}

/// The endpoint address of each pipe.
pub open spec fn pipe_code(p: Pipe) -> u8 {
    match p {
        Pipe::In0 => 0x82,
        Pipe::In1 => 0x83,
        Pipe::In2 => 0x84,
        Pipe::In3 => 0x85,
        Pipe::Out0 => 0x02,
        Pipe::Out1 => 0x03,
        Pipe::Out2 => 0x04,
        Pipe::Out3 => 0x05,
    }
}

/// The pipe whose endpoint address is `code`, if any.
pub open spec fn pipe_of_code(code: u8) -> Option<Pipe> {
    match code {
        0x82 => Some(Pipe::In0),
        0x83 => Some(Pipe::In1),
        0x84 => Some(Pipe::In2),
        0x85 => Some(Pipe::In3),
        0x02 => Some(Pipe::Out0),
        0x03 => Some(Pipe::Out1),
        0x04 => Some(Pipe::Out2),
        0x05 => Some(Pipe::Out3),
        _ => None,
    }
}

/// An input pipe.
pub open spec fn pipe_is_in(p: Pipe) -> bool {
    p is In0 || p is In1 || p is In2 || p is In3
}

/// An output pipe.
pub open spec fn pipe_is_out(p: Pipe) -> bool {
    p is Out0 || p is Out1 || p is Out2 || p is Out3
}

/// The number (0 to 3) that a pipe carries within its direction.
pub open spec fn pipe_number(p: Pipe) -> u8 {
    match p {
        Pipe::In0 | Pipe::Out0 => 0,
        Pipe::In1 | Pipe::Out1 => 1,
        Pipe::In2 | Pipe::Out2 => 2,
        Pipe::In3 | Pipe::Out3 => 3,
    }
}

/// A byte that names no pipe.
#[derive(Copy, Clone, Debug, Eq, PartialEq, Hash, Structural)]
pub struct UnknownPipe {
    /// The byte that was given.
    pub code: u8,
}

impl Pipe {
    /// The endpoint address of this pipe.
    pub fn code(self) -> (r: u8)
        ensures
            r == pipe_code(self),
    {
        match self {
            Pipe::In0 => 0x82,
            Pipe::In1 => 0x83,
            Pipe::In2 => 0x84,
            Pipe::In3 => 0x85,
            Pipe::Out0 => 0x02,
            Pipe::Out1 => 0x03,
            Pipe::Out2 => 0x04,
            Pipe::Out3 => 0x05,
        }
    }

    /// The pipe with endpoint address `code`.
    pub fn try_from(code: u8) -> (r: Result<Pipe, UnknownPipe>)
        ensures
            r matches Ok(p) ==> pipe_of_code(code) == Some(p),
            r matches Err(e) ==> pipe_of_code(code) is None && e.code == code,
    {
        match code {
            0x82 => Ok(Pipe::In0),
            0x83 => Ok(Pipe::In1),
            0x84 => Ok(Pipe::In2),
            0x85 => Ok(Pipe::In3),
            0x02 => Ok(Pipe::Out0),
            0x03 => Ok(Pipe::Out1),
            0x04 => Ok(Pipe::Out2),
            0x05 => Ok(Pipe::Out3),
            _ => Err(UnknownPipe { code }),
        }
    }

    /// Check if the pipe is an input (read) pipe.
    pub fn is_in(self) -> (r: bool)
        ensures
            r == pipe_is_in(self),
    {
        !self.is_out()
    }

    /// Check if the pipe is an output (write) pipe: bit 7 of its address is clear.
    pub fn is_out(self) -> (r: bool)
        ensures
            r == pipe_is_out(self),
    {
        let c = self.code();
        proof {
            assert((c & 0x80u8) == 0u8 <==> c < 0x80u8) by (bit_vector);
        }
        c & 0x80 == 0
    }

    /// The number (0 to 3) of this pipe within its direction.
    pub fn number(self) -> (r: u8)
        ensures
            r == pipe_number(self),
            r < 4,
    {
        match self {
            Pipe::In0 | Pipe::Out0 => 0,
            Pipe::In1 | Pipe::Out1 => 1,
            Pipe::In2 | Pipe::Out2 => 2,
            Pipe::In3 | Pipe::Out3 => 3,
        }
    }
}

impl From<Pipe> for u8 {
    fn from(p: Pipe) -> (r: u8) {
        p.code()
    }
}

impl vstd::std_specs::convert::FromSpecImpl<Pipe> for u8 {
    open spec fn obeys_from_spec() -> bool {
        true
    }

    open spec fn from_spec(p: Pipe) -> u8 {
        pipe_code(p)
    }
}

/// Every pipe is exactly one of input and output.
pub proof fn lemma_pipe_direction_exclusive(p: Pipe)
    ensures
        pipe_is_in(p) != pipe_is_out(p),
{
}

/// Every endpoint address names back the pipe it belongs to.
pub proof fn lemma_pipe_code_round_trip(p: Pipe)
    ensures
        pipe_of_code(pipe_code(p)) == Some(p),
{
}

/// The type of a pipe, which decides the kind of transfer it carries.
#[derive(Copy, Clone, Debug, Eq, PartialEq, Hash, Structural)]
pub enum PipeType {
    /// Bidirectional control transfer, reserved for endpoint zero.
    Control,
    /// Isochronous transfer: timely, without guaranteed integrity.
    Isochronous,
    /// Bulk transfer: integrity first.
    Bulk,
    /// Interrupt transfer: polled at defined intervals.
    Interrupt,
}

/// The pipe type that the driver encodes as `value`.
pub open spec fn pipe_type_of(value: u32) -> Option<PipeType> {
    match value {
        0 => Some(PipeType::Control),
        1 => Some(PipeType::Isochronous),
        2 => Some(PipeType::Bulk),
        3 => Some(PipeType::Interrupt),
        _ => None,
    }
}

impl PipeType {
    /// The pipe type that the driver encodes as `value` (0 to 3).
    pub fn from_raw(value: u32) -> (r: Option<PipeType>)
        ensures
            r == pipe_type_of(value),
    {
        match value {
            0 => Some(PipeType::Control),
            1 => Some(PipeType::Isochronous),
            2 => Some(PipeType::Bulk),
            3 => Some(PipeType::Interrupt),
            _ => None,
        }
    }
}

/// Access to one pipe of an open device.
///
/// The pipe's direction is fixed: a transfer against it must match it.
#[derive(Clone, Debug, Eq, PartialEq)]
pub struct PipeIo {
    handle: usize,
    id: Pipe,
}

impl PipeIo {
    /// The driver handle of the device this pipe belongs to.
    pub closed spec fn spec_handle(&self) -> usize {
        self.handle
    }

    /// The pipe identifier.
    pub closed spec fn spec_id(&self) -> Pipe {
        self.id
    }

    /// Access to pipe `id` of `device`.
    pub fn new(device: &Device, id: Pipe) -> (r: PipeIo)
        ensures
            r.spec_handle() == device.spec_handle(),
            r.spec_id() == id,
    {
        PipeIo { handle: device.handle(), id }
    }

    /// The pipe identifier.
    pub fn id(&self) -> (r: Pipe)
        ensures
            r == self.spec_id(),
    {
        self.id
    }

    /// The driver handle of the device this pipe belongs to.
    pub fn handle(&self) -> (r: usize)
        ensures
            r == self.spec_handle(),
    {
        self.handle
    }
}

} // verus!
