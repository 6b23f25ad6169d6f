//! Status codes reported by the driver and the error taxonomy they map to.
use vstd::prelude::*;

verus! {

/// Status code that the driver reports for success.
pub const STATUS_SUCCESS: u32 = 0;

/// An error reported by the driver.
///
/// Codes 1 through 31 are defined by the driver; every other non-zero code is
/// reported as [`D3xxError::OtherError`], whose own code is 32.
#[allow(missing_docs)]
#[non_exhaustive]
#[derive(Debug, Clone, Copy, PartialEq, Eq, Hash, Structural)]
pub enum D3xxError {
    InvalidHandle,
    DeviceNotFound,
    DeviceNotOpened,
    IoError,
    InsufficientResources,
    InvalidParameter,
    InvalidBaudRate,
    DeviceNotOpenedForErase,
    DeviceNotOpenedForWrite,
    FailedToWriteDevice,
    EEPROMReadFailed,
    EEPROMWriteFailed,
    EEPROMEraseFailed,
    EEPROMNotPresent,
    EEPROMNotProgrammed,
    InvalidArgs,
    NotSupported,
    NoMoreItems,
    Timeout,
    OperationAborted,
    ReservedPipe,
    InvalidControlRequestDirection,
    InvalidControLRequestType,
    IoPending,
    IoIncomplete,
    HandleEof,
    Busy,
    NoSystemResources,
    DeviceListNotReady,
    DeviceNotConnected,
    IncorrectDevicePath,
    OtherError,
}

/// The numeric code of each error.
pub open spec fn code_of(e: D3xxError) -> u8 {
    match e {
        D3xxError::InvalidHandle => 1,
        D3xxError::DeviceNotFound => 2,
        D3xxError::DeviceNotOpened => 3,
        D3xxError::IoError => 4,
        D3xxError::InsufficientResources => 5,
        D3xxError::InvalidParameter => 6,
        D3xxError::InvalidBaudRate => 7,
        D3xxError::DeviceNotOpenedForErase => 8,
        D3xxError::DeviceNotOpenedForWrite => 9,
        D3xxError::FailedToWriteDevice => 10,
        D3xxError::EEPROMReadFailed => 11,
        D3xxError::EEPROMWriteFailed => 12,
        D3xxError::EEPROMEraseFailed => 13,
        D3xxError::EEPROMNotPresent => 14,
        D3xxError::EEPROMNotProgrammed => 15,
        D3xxError::InvalidArgs => 16,
        D3xxError::NotSupported => 17,
        D3xxError::NoMoreItems => 18,
        D3xxError::Timeout => 19,
        D3xxError::OperationAborted => 20,
        D3xxError::ReservedPipe => 21,
        D3xxError::InvalidControlRequestDirection => 22,
        D3xxError::InvalidControLRequestType => 23,
        D3xxError::IoPending => 24,
        D3xxError::IoIncomplete => 25,
        D3xxError::HandleEof => 26,
        D3xxError::Busy => 27,
        D3xxError::NoSystemResources => 28,
        D3xxError::DeviceListNotReady => 29,
        D3xxError::DeviceNotConnected => 30,
        D3xxError::IncorrectDevicePath => 31,
        D3xxError::OtherError => 32,
    }
}

/// The error that a non-zero status code stands for: the variant whose code
/// it is for 1 through 31, and `OtherError` for any other code.
pub open spec fn error_of(status: u32) -> D3xxError {
    match status {
        1 => D3xxError::InvalidHandle,
        2 => D3xxError::DeviceNotFound,
        3 => D3xxError::DeviceNotOpened,
        4 => D3xxError::IoError,
        5 => D3xxError::InsufficientResources,
        6 => D3xxError::InvalidParameter,
        7 => D3xxError::InvalidBaudRate,
        8 => D3xxError::DeviceNotOpenedForErase,
        9 => D3xxError::DeviceNotOpenedForWrite,
        10 => D3xxError::FailedToWriteDevice,
        11 => D3xxError::EEPROMReadFailed,
        12 => D3xxError::EEPROMWriteFailed,
        13 => D3xxError::EEPROMEraseFailed,
        14 => D3xxError::EEPROMNotPresent,
        15 => D3xxError::EEPROMNotProgrammed,
        16 => D3xxError::InvalidArgs,
        17 => D3xxError::NotSupported,
        18 => D3xxError::NoMoreItems,
        19 => D3xxError::Timeout,
        20 => D3xxError::OperationAborted,
        21 => D3xxError::ReservedPipe,
        22 => D3xxError::InvalidControlRequestDirection,
        23 => D3xxError::InvalidControLRequestType,
        24 => D3xxError::IoPending,
        25 => D3xxError::IoIncomplete,
        26 => D3xxError::HandleEof,
        27 => D3xxError::Busy,
        28 => D3xxError::NoSystemResources,
        29 => D3xxError::DeviceListNotReady,
        30 => D3xxError::DeviceNotConnected,
        31 => D3xxError::IncorrectDevicePath,
        _ => D3xxError::OtherError,
    }
}

/// What a status code means for an ordinary call: success for 0, else the
/// error it stands for.
pub open spec fn status_result(status: u32) -> Result<(), D3xxError> {
    if status == STATUS_SUCCESS {
        Ok(())
    } else {
        Err(error_of(status))
    }
}

/// A transient status: the two codes that say an overlapped transfer is
/// still under way.
pub open spec fn is_transient(status: u32) -> bool {
    status == 24 || status == 25
}

impl D3xxError {
    /// The error code as an integer, from 1 to 32 inclusive.
    pub fn code(&self) -> (r: u8)
        ensures
            r == code_of(*self),
            1 <= r <= 32,
    {
        match self {
            D3xxError::InvalidHandle => 1,
            D3xxError::DeviceNotFound => 2,
            D3xxError::DeviceNotOpened => 3,
            D3xxError::IoError => 4,
            D3xxError::InsufficientResources => 5,
            D3xxError::InvalidParameter => 6,
            D3xxError::InvalidBaudRate => 7,
            D3xxError::DeviceNotOpenedForErase => 8,
            D3xxError::DeviceNotOpenedForWrite => 9,
            D3xxError::FailedToWriteDevice => 10,
            D3xxError::EEPROMReadFailed => 11,
            D3xxError::EEPROMWriteFailed => 12,
            D3xxError::EEPROMEraseFailed => 13,
            D3xxError::EEPROMNotPresent => 14,
            D3xxError::EEPROMNotProgrammed => 15,
            D3xxError::InvalidArgs => 16,
            D3xxError::NotSupported => 17,
            D3xxError::NoMoreItems => 18,
            D3xxError::Timeout => 19,
            D3xxError::OperationAborted => 20,
            D3xxError::ReservedPipe => 21,
            D3xxError::InvalidControlRequestDirection => 22,
            D3xxError::InvalidControLRequestType => 23,
            D3xxError::IoPending => 24,
            D3xxError::IoIncomplete => 25,
            D3xxError::HandleEof => 26,
            D3xxError::Busy => 27,
            D3xxError::NoSystemResources => 28,
            D3xxError::DeviceListNotReady => 29,
            D3xxError::DeviceNotConnected => 30,
            D3xxError::IncorrectDevicePath => 31,
            D3xxError::OtherError => 32,
        }
    }
}

impl From<u32> for D3xxError {
    /// Map a status code to its error; see [`error_of`].
    fn from(status: u32) -> (r: Self) {
        match status {
            1 => D3xxError::InvalidHandle,
            2 => D3xxError::DeviceNotFound,
            3 => D3xxError::DeviceNotOpened,
            4 => D3xxError::IoError,
            5 => D3xxError::InsufficientResources,
            6 => D3xxError::InvalidParameter,
            7 => D3xxError::InvalidBaudRate,
            8 => D3xxError::DeviceNotOpenedForErase,
            9 => D3xxError::DeviceNotOpenedForWrite,
            10 => D3xxError::FailedToWriteDevice,
            11 => D3xxError::EEPROMReadFailed,
            12 => D3xxError::EEPROMWriteFailed,
            13 => D3xxError::EEPROMEraseFailed,
            14 => D3xxError::EEPROMNotPresent,
            15 => D3xxError::EEPROMNotProgrammed,
            16 => D3xxError::InvalidArgs,
            17 => D3xxError::NotSupported,
            18 => D3xxError::NoMoreItems,
            19 => D3xxError::Timeout,
            20 => D3xxError::OperationAborted,
            21 => D3xxError::ReservedPipe,
            22 => D3xxError::InvalidControlRequestDirection,
            23 => D3xxError::InvalidControLRequestType,
            24 => D3xxError::IoPending,
            25 => D3xxError::IoIncomplete,
            26 => D3xxError::HandleEof,
            27 => D3xxError::Busy,
            28 => D3xxError::NoSystemResources,
            29 => D3xxError::DeviceListNotReady,
            30 => D3xxError::DeviceNotConnected,
            31 => D3xxError::IncorrectDevicePath,
            _ => D3xxError::OtherError,
        }
    }
}

impl vstd::std_specs::convert::FromSpecImpl<u32> for D3xxError {
    open spec fn obeys_from_spec() -> bool {
        true
    }

    open spec fn from_spec(status: u32) -> Self {
        error_of(status)
    }
}

/// Turn a status code into a result: `Ok(())` for success, else the error
/// that the code stands for.
pub fn try_d3xx(status: u32) -> (r: Result<(), D3xxError>)
    ensures
        r == status_result(status),
{
    if status == STATUS_SUCCESS {
        Ok(())
    } else {
        Err(D3xxError::from(status))
    }
}

/// Each error's code maps back to that error.
pub proof fn lemma_code_round_trip(e: D3xxError)
    ensures
        error_of(code_of(e) as u32) == e,
{
}

/// Each code from 1 to 31 is the code of the error it maps to.
pub proof fn lemma_status_round_trip(status: u32)
    requires
        1 <= status <= 31,
    ensures
        code_of(error_of(status)) as u32 == status,
{
}

} // verus!
