//! Bring-up logic for a wearable sensor board: the companion-controller
//! handshake, the bounded wait for the shared interrupt line to release,
//! the hand-off of the event channel to interrupt context, and the single
//! terminal failure path.
use vstd::prelude::*;

pub mod bridge;
pub mod bringup;
pub mod error;
pub mod handshake;
pub mod message;
pub mod settle;

verus! {

/// Bus address of the companion controller.
pub const CONTROLLER_ADDRESS: u8 = 0x70;

/// The one byte written to wake the companion controller before a read.
pub const WAKE_BYTE: u8 = 0x00;

/// Size of the buffer a controller reply is read into.
pub const REPLY_BUFFER_LEN: usize = 255;

/// Wait after a `Busy` reply before the next round of the handshake.
pub const HANDSHAKE_RETRY_DELAY_MS: u32 = 100;

/// The handshake's retry budget, in reads.
pub const HANDSHAKE_MAX_ATTEMPTS: u32 = 50;

/// How long the line may take to release after the handshake.
pub const SETTLE_DEADLINE_MS: u32 = 5000;

/// Interval between two looks at the line while it settles.
pub const SETTLE_POLL_INTERVAL_MS: u32 = 1;

} // verus!
