use vstd::prelude::*;

verus! {

/// Every unrecoverable condition of the bring-up sequence.
#[derive(Clone, Copy, Debug, PartialEq, Eq, Structural)]
pub enum BringupError {
    /// A bus read or write failed.
    BusTransactionFailure,
    /// The companion controller answered with a pattern that is neither
    /// `Busy` nor a user event with a cause in `1..=3`.
    ProtocolViolation,
    /// The interrupt line did not release in time; `elapsed_ms` is the time
    /// spent waiting for it.
    LineStuckTimeout { elapsed_ms: u64 },
    /// A sensor configuration transaction failed.
    SensorInitFailure,
}

} // verus!
