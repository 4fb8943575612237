use vstd::prelude::*;

use crate::error::BringupError;

verus! {

/// The stages of bring-up, in order, and the terminal state.
#[derive(Clone, Copy, Debug, PartialEq, Eq, Structural)]
pub enum Stage {
    Handshake,
    Settle,
    ConfigureSensor,
    ArmBridge,
    Unmask,
    EnableNotifications,
    /// Bring-up is done; the device waits for events until reset.
    Idle,
    /// A fatal condition was met; the indicator is on and the device waits
    /// in low power until reset.
    Parked(BringupError),
}

/// The stage after `s` completes without error.
pub open spec fn next_stage(s: Stage) -> Stage {
    match s {
        Stage::Handshake => Stage::Settle,
        Stage::Settle => Stage::ConfigureSensor,
        Stage::ConfigureSensor => Stage::ArmBridge,
        Stage::ArmBridge => Stage::Unmask,
        Stage::Unmask => Stage::EnableNotifications,
        Stage::EnableNotifications => Stage::Idle,
        Stage::Idle => Stage::Idle,
        Stage::Parked(e) => Stage::Parked(e),
    }
}

/// The single dispatcher that every fallible bring-up step reports to. Any
/// error moves it to the parked state with the failure indicator on; nothing
/// leaves that state.
#[derive(Clone, Copy, Debug, PartialEq, Eq, Structural)]
pub struct Bringup {
    pub stage: Stage,
    /// The failure indicator output is active.
    pub indicator_active: bool,
}

impl Bringup {
    /// The indicator is on exactly when the device is parked.
    pub open spec fn wf(self) -> bool {
        self.indicator_active <==> self.stage is Parked
    }

    /// The terminal handler's effect: parked with the indicator on; a device
    /// already parked keeps its first error.
    pub open spec fn fail_spec(self, e: BringupError) -> Bringup {
        match self.stage {
            Stage::Parked(_) => Bringup { indicator_active: true, ..self },
            _ => Bringup { stage: Stage::Parked(e), indicator_active: true },
        }
    }

    /// The dispatcher's effect on the outcome of the current stage.
    pub open spec fn complete_spec(self, outcome: Result<(), BringupError>) -> Bringup {
        match outcome {
            Ok(()) => Bringup { stage: next_stage(self.stage), ..self },
            Err(e) => self.fail_spec(e),
        }
    }

    /// Bring-up before its first stage, indicator off.
    pub fn new() -> (b: Bringup)
        ensures
            b.wf(),
            b == (Bringup { stage: Stage::Handshake, indicator_active: false }),
    {
        Bringup { stage: Stage::Handshake, indicator_active: false }
    }

    /// The terminal handler: sets the indicator and parks.
    pub fn fail(&mut self, e: BringupError)
        requires
            old(self).wf(),
        ensures
            final(self).wf(),
            *final(self) == old(self).fail_spec(e),
    {
        match self.stage {
            Stage::Parked(_) => {},
            _ => {
                self.stage = Stage::Parked(e);
            },
        }
        self.indicator_active = true;
    }

    /// Takes the outcome of the current stage: success moves to the next
    /// stage, any error goes to the terminal handler. Returns the new stage.
    pub fn complete(&mut self, outcome: Result<(), BringupError>) -> (r: Stage)
        requires
            old(self).wf(),
        ensures
            final(self).wf(),
            *final(self) == old(self).complete_spec(outcome),
            r == final(self).stage,
    {
        match outcome {
            Ok(()) => {
                self.stage = match self.stage {
                    Stage::Handshake => Stage::Settle,
                    Stage::Settle => Stage::ConfigureSensor,
                    Stage::ConfigureSensor => Stage::ArmBridge,
                    Stage::ArmBridge => Stage::Unmask,
                    Stage::Unmask => Stage::EnableNotifications,
                    Stage::EnableNotifications => Stage::Idle,
                    Stage::Idle => Stage::Idle,
                    Stage::Parked(e) => Stage::Parked(e),
                };
            },
            Err(e) => self.fail(e),
        }
        self.stage
    }

    /// Whether the device is parked.
    pub fn is_parked(&self) -> (r: bool)
        ensures
            r == self.stage is Parked,
    {
        match self.stage {
            Stage::Parked(_) => true,
            _ => false,
        }
    }
}

/// Parking is final: once parked, whatever outcome is reported, the device
/// stays parked with the same error and the indicator on.
pub proof fn lemma_parked_is_terminal(b: Bringup, outcome: Result<(), BringupError>)
    requires
        b.wf(),
        b.stage is Parked,
    ensures
        b.complete_spec(outcome) == b,
{
}

} // verus!
