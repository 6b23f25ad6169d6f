//! Notifications: decoding the driver's event payloads, and the one callback
//! registered per device.
//!
//! The driver calls a fixed entry point, from a thread of its own, with an
//! event kind and a pointer to a payload whose layout depends on the kind. Of
//! the kinds, two are known: data arrival on a pipe, and a change of the GPIO
//! pins. An event of any other kind, or one that does not decode, is dropped
//! and reaches no callback.
use vstd::prelude::*;

use crate::error::D3xxError;
use crate::pipe::{pipe_of_code, Pipe};

verus! {

/// Event kind: data arrived on a notification-enabled pipe.
pub const NOTIFICATION_DATA: u32 = 0;

/// Event kind: the state of the GPIO pins changed.
pub const NOTIFICATION_GPIO: u32 = 1;

/// Size in bytes of the payload of each known event kind.
pub const NOTIFICATION_PAYLOAD_LEN: usize = 8;

/// Data carried by a notification.
#[derive(Debug, Clone, Copy, PartialEq, Eq, Hash, Structural)]
pub enum NotificationData {
    /// Data notification.
    Data {
        /// The endpoint that the notification was triggered on.
        endpoint: Pipe,
        /// The number of bytes received.
        size: usize,
    },
    /// GPIO state notification.
    Gpio {
        /// The state of GPIO0.
        gpio0: usize,
        /// The state of GPIO1.
        gpio1: usize,
    },
}

/// The little-endian 32-bit word at `at` in `b`.
pub open spec fn le_u32(b: Seq<u8>, at: int) -> u32 {
    (b[at] as int + 256 * b[at + 1] as int + 65536 * b[at + 2] as int + 16777216 * b[at
        + 3] as int) as u32
}

/// The notification that a payload of kind `kind` stands for, if any.
///
/// A data payload holds the byte count as a 32-bit word and then the endpoint
/// address; a GPIO payload holds the two pin states as 32-bit words.
pub open spec fn decoded(kind: u32, payload: Seq<u8>) -> Option<NotificationData> {
    if payload.len() < NOTIFICATION_PAYLOAD_LEN {
        None
    } else if kind == NOTIFICATION_DATA {
        match pipe_of_code(payload[4]) {
            Some(endpoint) => Some(
                NotificationData::Data { endpoint, size: le_u32(payload, 0) as usize },
            ),
            None => None,
        }
    } else if kind == NOTIFICATION_GPIO {
        Some(
            NotificationData::Gpio {
                gpio0: le_u32(payload, 0) as usize,
                gpio1: le_u32(payload, 4) as usize,
            },
        )
    } else {
        None
    }
}

/// The size of the payload that an event of kind `kind` comes with, for the
/// known kinds.
pub fn payload_len(kind: u32) -> (r: Option<usize>)
    ensures
        kind == NOTIFICATION_DATA || kind == NOTIFICATION_GPIO ==> r == Some(
            NOTIFICATION_PAYLOAD_LEN,
        ),
        !(kind == NOTIFICATION_DATA || kind == NOTIFICATION_GPIO) ==> r is None,
{
    if kind == NOTIFICATION_DATA || kind == NOTIFICATION_GPIO {
        Some(NOTIFICATION_PAYLOAD_LEN)
    } else {
        None
    }
}

/// The little-endian 32-bit word at `at` in `b`.
fn read_le_u32(b: &[u8], at: usize) -> (r: u32)
    requires
        at + 4 <= b.len(),
    ensures
        r == le_u32(b@, at as int),
{
    let v: u64 = b[at] as u64 + 256 * b[at + 1] as u64 + 65536 * b[at + 2] as u64 + 16777216
        * b[at + 3] as u64;
    v as u32
}

/// Decode the payload of an event of kind `kind`.
///
/// Fails with `OtherError` for an unknown kind, a payload too short for its
/// kind, or a data payload whose endpoint names no pipe.
pub fn extract_notification_data(kind: u32, payload: &[u8]) -> (r: Result<
    NotificationData,
    D3xxError,
>)
    ensures
        r matches Ok(d) ==> decoded(kind, payload@) == Some(d),
        r matches Err(e) ==> decoded(kind, payload@) is None && e == D3xxError::OtherError,
{
    if payload.len() < NOTIFICATION_PAYLOAD_LEN {
        Err(D3xxError::OtherError)
    } else if kind == NOTIFICATION_DATA {
        match Pipe::try_from(payload[4]) {
            Ok(endpoint) => Ok(
                NotificationData::Data { endpoint, size: read_le_u32(payload, 0) as usize },
            ),
            Err(_) => Err(D3xxError::OtherError),
        }
    } else if kind == NOTIFICATION_GPIO {
        Ok(
            NotificationData::Gpio {
                gpio0: read_le_u32(payload, 0) as usize,
                gpio1: read_le_u32(payload, 4) as usize,
            },
        )
    } else {
        Err(D3xxError::OtherError)
    }
}

/// The callback registered for one device.
///
/// At most one registration is live: registering replaces the former one.
/// The driver gives no sign of whether it still holds the replaced
/// registration's context, so the replaced callback is handed back to the
/// caller, who must keep it alive rather than free it.
pub struct NotificationBridge<C> {
    current: Option<C>,
}

impl<C> NotificationBridge<C> {
    /// The callback registered, if any.
    pub closed spec fn spec_current(&self) -> Option<C> {
        self.current
    }

    /// The bridge after `callback` is registered.
    pub closed spec fn after_register(&self, callback: C) -> NotificationBridge<C> {
        NotificationBridge { current: Some(callback) }
    }

    /// The bridge after the registration is cleared.
    pub closed spec fn after_clear(&self) -> NotificationBridge<C> {
        NotificationBridge { current: None }
    }

    /// The callback an event reaches, with the data it carries, if any.
    pub open spec fn dispatched(&self, kind: u32, payload: Seq<u8>) -> Option<(C, NotificationData)> {
        match (self.spec_current(), decoded(kind, payload)) {
            (Some(c), Some(d)) => Some((c, d)),
            _ => None,
        }
    }

    /// A bridge with nothing registered.
    pub fn new() -> (r: NotificationBridge<C>)
        ensures
            r.spec_current() is None,
    {
        NotificationBridge { current: None }
    }

    /// Register `callback`, replacing any former registration, which is
    /// returned.
    pub fn register(&mut self, callback: C) -> (r: Option<C>)
        ensures
            *final(self) == old(self).after_register(callback),
            final(self).spec_current() == Some(callback),
            r == old(self).spec_current(),
    {
        let prior = self.current.take();
        self.current = Some(callback);
        prior
    }

    /// Clear the registration, returning it.
    pub fn clear(&mut self) -> (r: Option<C>)
        ensures
            *final(self) == old(self).after_clear(),
            final(self).spec_current() is None,
            r == old(self).spec_current(),
    {
        self.current.take()
    }

    /// The callback registered, if any.
    pub fn current(&self) -> (r: Option<&C>)
        ensures
            r matches Some(c) ==> self.spec_current() == Some(*c),
            r is None ==> self.spec_current() is None,
    {
        self.current.as_ref()
    }

    /// Route an event: the registered callback and the decoded data, or
    /// nothing when no callback is registered or the event does not decode.
    pub fn dispatch(&self, kind: u32, payload: &[u8]) -> (r: Option<(&C, NotificationData)>)
        ensures
            r is Some <==> self.dispatched(kind, payload@) is Some,
            r matches Some((c, d)) ==> self.dispatched(kind, payload@) == Some((*c, d)),
    {
        match &self.current {
            Some(c) => match extract_notification_data(kind, payload) {
                Ok(d) => Some((c, d)),
                Err(_) => None,
            },
            None => None,
        }
    }
}

/// After registering `first` and then `second`, an event reaches `second`
/// alone; an event that does not decode reaches no callback.
pub proof fn lemma_latest_registration_wins<C>(
    bridge: NotificationBridge<C>,
    first: C,
    second: C,
    kind: u32,
    payload: Seq<u8>,
)
    ensures
        ({
            let b = bridge.after_register(first).after_register(second);
            &&& b.dispatched(kind, payload) matches Some((c, _)) ==> c == second
            &&& decoded(kind, payload) is Some ==> b.dispatched(kind, payload) is Some
            &&& decoded(kind, payload) is None ==> b.dispatched(kind, payload) is None
        }),
{
}

/// Once the registration is cleared, no event reaches any callback.
pub proof fn lemma_cleared_bridge_is_silent<C>(bridge: NotificationBridge<C>, kind: u32, payload: Seq<u8>)
    ensures
        bridge.after_clear().dispatched(kind, payload) is None,
{
}

} // verus!
