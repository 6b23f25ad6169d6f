//! A verified layer over FTDI's D3XX driver for FT60x USB 3.0 to FIFO bridges.
//!
//! The driver itself is reached through native calls that this crate does not
//! make. What it holds is the logic around those calls, each piece with a
//! contract: the status taxonomy, pipe direction rules, the transfer protocol
//! that aborts a pipe after a failed transfer, the polling protocol of
//! overlapped transfers, the decoding and dispatch of notifications, and the
//! decoding of the driver's descriptor and configuration records.
pub mod configuration;
mod descriptor;
mod device;
mod error;
mod gpio;
mod loopback;
mod notification;
mod overlapped;
mod pipe;
mod scan;
mod transfer;
mod version;

pub use device::Device;
pub use error::{
    code_of, error_of, is_transient, lemma_code_round_trip, lemma_status_round_trip,
    status_result, try_d3xx, D3xxError, STATUS_SUCCESS,
};
pub use gpio::{
    direction_code, level_code, pin_index, pin_mask, pull_code, Direction, Gpio, GpioPin, Level,
    PullMode,
};
pub use pipe::{
    lemma_pipe_code_round_trip, lemma_pipe_direction_exclusive, pipe_code, pipe_is_in,
    pipe_is_out, pipe_number, pipe_of_code, pipe_type_of, Pipe, PipeIo, PipeType, UnknownPipe,
};
pub use transfer::{
    accepted, direction_matches, lemma_accepted_transfer_issues_no_abort,
    lemma_failed_transfer_aborts_once, Phase, Request, Transfer, TransferKind,
};
pub use overlapped::{
    completion_result, ignore_io_pending, lemma_poll_completes_once, poll_run, Overlapped, Poll,
};
pub use loopback::{
    lemma_loopback_failure_aborts_once, lemma_loopback_round_trip, Loopback, LoopbackState,
};
pub use notification::{
    decoded, extract_notification_data, le_u32, lemma_cleared_bridge_is_silent,
    lemma_latest_registration_wins, payload_len, NotificationBridge, NotificationData,
    NOTIFICATION_DATA, NOTIFICATION_GPIO, NOTIFICATION_PAYLOAD_LEN,
};
pub use scan::{
    c_str, c_str_bytes, describes, device_infos, device_type_of, utf8_lossy_of, visible_entries,
    visible_entries_spec, DeviceInfo, DeviceNode, DeviceType, FLAG_HISPEED, FLAG_OPENED,
    FLAG_SUPERSPEED,
};
pub use descriptor::{
    descriptor_string, is_wide_c_str, utf16_lossy_of, ClassCodes, ConfigurationDescriptor,
    ConfigurationDescriptorFields, DeviceDescriptor, DeviceDescriptorFields, InterfaceDescriptor,
    InterfaceDescriptorFields, PipeInfo, PipeInformation, UsbVersion,
    CONFIGURATION_ATTRIBUTE_REMOTE_WAKEUP, CONFIGURATION_ATTRIBUTE_SELF_POWERED,
};
pub use version::Version;
