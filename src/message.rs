use vstd::prelude::*;

use crate::error::BringupError;

verus! {

/// First two bytes of a `Busy` reply.
pub const BUSY_TAG: [u8; 2] = [0x20, 0x39];

/// First three bytes of a user-event reply; the cause follows them.
pub const USER_EVENT_HEADER: [u8; 3] = [0x11, 0x09, 0x01];

/// Smallest cause that a user event may carry.
pub const MIN_CAUSE: u8 = 1;

/// Largest cause that a user event may carry.
pub const MAX_CAUSE: u8 = 3;

/// A reply of the companion controller, decoded from the bytes of one read.
#[derive(Clone, Copy, Debug, PartialEq, Eq, Structural)]
pub enum InterfaceMessage {
    /// The controller is not ready to release the interrupt line yet.
    Busy,
    /// The controller reports a user event with the given cause.
    UserEvent { cause: u8 },
    /// Any other byte pattern.
    Malformed,
}

/// The reply starts with the `Busy` tag.
pub open spec fn is_busy_reply(buf: Seq<u8>) -> bool {
    buf.len() >= 2 && buf[0] == 0x20u8 && buf[1] == 0x39u8
}

/// The reply starts with the user-event header; its cause is byte 3.
pub open spec fn is_user_event_reply(buf: Seq<u8>) -> bool {
    buf.len() >= 4 && buf[0] == 0x11u8 && buf[1] == 0x09u8 && buf[2] == 0x01u8
}

/// A cause that a user event may legitimately carry.
pub open spec fn valid_cause(c: u8) -> bool {
    1 <= c <= 3
}

/// What a reply decodes to, before its cause is checked.
pub open spec fn decode_spec(buf: Seq<u8>) -> InterfaceMessage {
    if is_busy_reply(buf) {
        InterfaceMessage::Busy
    } else if is_user_event_reply(buf) {
        InterfaceMessage::UserEvent { cause: buf[3] }
    } else {
        InterfaceMessage::Malformed
    }
}

/// What a reply means to the handshake: `Busy`, a user event with a valid
/// cause, or a protocol violation.
pub open spec fn classify_spec(buf: Seq<u8>) -> Result<InterfaceMessage, BringupError> {
    match decode_spec(buf) {
        InterfaceMessage::Busy => Ok(InterfaceMessage::Busy),
        InterfaceMessage::UserEvent { cause } => if valid_cause(cause) {
            Ok(InterfaceMessage::UserEvent { cause })
        } else {
            Err(BringupError::ProtocolViolation)
        },
        InterfaceMessage::Malformed => Err(BringupError::ProtocolViolation),
    }
}

/// Decodes the bytes of one read from the companion controller.
pub fn decode(buf: &[u8]) -> (m: InterfaceMessage)
    ensures
        m == decode_spec(buf@),
{
    if buf.len() >= 2 && buf[0] == BUSY_TAG[0] && buf[1] == BUSY_TAG[1] {
        InterfaceMessage::Busy
    } else if buf.len() >= 4 && buf[0] == USER_EVENT_HEADER[0]
        && buf[1] == USER_EVENT_HEADER[1] && buf[2] == USER_EVENT_HEADER[2] {
        InterfaceMessage::UserEvent { cause: buf[3] }
    } else {
        InterfaceMessage::Malformed
    }
}

/// Classifies a reply: `Busy`, a user event whose cause is in `1..=3`, or a
/// fatal `ProtocolViolation` for every other pattern.
pub fn classify(buf: &[u8]) -> (r: Result<InterfaceMessage, BringupError>)
    ensures
        r == classify_spec(buf@),
        is_busy_reply(buf@) ==> r == Ok::<InterfaceMessage, BringupError>(InterfaceMessage::Busy),
        is_user_event_reply(buf@) && valid_cause(buf@[3]) ==> r == Ok::<
            InterfaceMessage,
            BringupError,
        >(InterfaceMessage::UserEvent { cause: buf@[3] }),
        is_user_event_reply(buf@) && !valid_cause(buf@[3]) ==> r == Err::<
            InterfaceMessage,
            BringupError,
        >(BringupError::ProtocolViolation),
        !is_busy_reply(buf@) && !is_user_event_reply(buf@) ==> r == Err::<
            InterfaceMessage,
            BringupError,
        >(BringupError::ProtocolViolation),
{
    match decode(buf) {
        InterfaceMessage::Busy => Ok(InterfaceMessage::Busy),
        InterfaceMessage::UserEvent { cause } => {
            if MIN_CAUSE <= cause && cause <= MAX_CAUSE {
                Ok(InterfaceMessage::UserEvent { cause })
            } else {
                Err(BringupError::ProtocolViolation)
            }
        },
        InterfaceMessage::Malformed => Err(BringupError::ProtocolViolation),
    }
}

} // verus!
