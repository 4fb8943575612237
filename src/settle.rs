use vstd::prelude::*;

use crate::error::BringupError;

verus! {

/// What the settle monitor asks of the caller next.
#[derive(Clone, Copy, Debug, PartialEq, Eq, Structural)]
pub enum SettleAction {
    /// The line was observed high after `elapsed_ms` of waiting.
    Settled { elapsed_ms: u32 },
    /// Wait `delay_ms`, then look at the line again.
    Wait { delay_ms: u32 },
    /// The line did not rise before the deadline.
    Failed(BringupError),
}

/// A bounded wait for the interrupt line to read high, polled at a fixed
/// interval against a deadline. The time it counts is the sum of the waits
/// it asked for, so it can be driven by a real delay or by a fake clock.
#[derive(Clone, Copy, Debug, PartialEq, Eq, Structural)]
pub struct SettleMonitor {
    /// Time waited so far.
    pub elapsed_ms: u32,
    /// The longest time to wait for the line.
    pub deadline_ms: u32,
    /// The time between two looks at the line.
    pub poll_interval_ms: u32,
}

pub open spec fn min_u32(a: u32, b: u32) -> u32 {
    if a <= b {
        a
    } else {
        b
    }
}

impl SettleMonitor {
    pub open spec fn wf(self) -> bool {
        self.elapsed_ms <= self.deadline_ms && self.poll_interval_ms > 0
    }

    /// The transition on one look at the line.
    pub open spec fn observe_spec(self, high: bool) -> (SettleMonitor, SettleAction) {
        if high {
            (self, SettleAction::Settled { elapsed_ms: self.elapsed_ms })
        } else if self.elapsed_ms >= self.deadline_ms {
            (
                self,
                SettleAction::Failed(
                    BringupError::LineStuckTimeout { elapsed_ms: self.elapsed_ms as u64 },
                ),
            )
        } else {
            let d = min_u32(self.poll_interval_ms, (self.deadline_ms - self.elapsed_ms) as u32);
            (
                SettleMonitor { elapsed_ms: (self.elapsed_ms + d) as u32, ..self },
                SettleAction::Wait { delay_ms: d },
            )
        }
    }

    /// A monitor that has not waited yet.
    pub fn new(deadline_ms: u32, poll_interval_ms: u32) -> (m: SettleMonitor)
        requires
            poll_interval_ms > 0,
        ensures
            m.wf(),
            m == (SettleMonitor { elapsed_ms: 0, deadline_ms, poll_interval_ms }),
    {
        SettleMonitor { elapsed_ms: 0, deadline_ms, poll_interval_ms }
    }

    /// Takes one look at the line. High: settled, with the time waited. Low
    /// with the deadline reached: `LineStuckTimeout`. Low otherwise: wait one
    /// interval, cut short so that the wait never passes the deadline.
    pub fn observe(&mut self, high: bool) -> (r: SettleAction)
        requires
            old(self).wf(),
        ensures
            final(self).wf(),
            (*final(self), r) == old(self).observe_spec(high),
    {
        if high {
            SettleAction::Settled { elapsed_ms: self.elapsed_ms }
        } else if self.elapsed_ms >= self.deadline_ms {
            SettleAction::Failed(BringupError::LineStuckTimeout { elapsed_ms: self.elapsed_ms as u64 })
        } else {
            let left = self.deadline_ms - self.elapsed_ms;
            let d = if self.poll_interval_ms <= left {
                self.poll_interval_ms
            } else {
                left
            };
            self.elapsed_ms = self.elapsed_ms + d;
            SettleAction::Wait { delay_ms: d }
        }
    }
}

/// `n` looks at a line that stays low, stopping at the first action other
/// than a wait. `None` as action: the looks ran out while still waiting.
pub open spec fn observe_low(m: SettleMonitor, n: nat) -> (SettleMonitor, Option<SettleAction>)
    decreases n,
{
    if n == 0 {
        (m, None)
    } else {
        let (m1, a) = m.observe_spec(false);
        match a {
            SettleAction::Wait { .. } => observe_low(m1, (n - 1) as nat),
            _ => (m1, Some(a)),
        }
    }
}

/// A line that never reads high: within `deadline_ms - elapsed_ms + 1` looks
/// the monitor fails with `LineStuckTimeout`, reporting exactly the deadline
/// as the time waited. No run of waits goes on past that.
pub proof fn lemma_stuck_line_times_out(m: SettleMonitor, n: nat)
    requires
        m.wf(),
        n > m.deadline_ms - m.elapsed_ms,
    ensures
        ({
            let (m1, a) = observe_low(m, n);
            &&& a == Some(
                SettleAction::Failed(
                    BringupError::LineStuckTimeout { elapsed_ms: m.deadline_ms as u64 },
                ),
            )
            &&& m1.elapsed_ms == m.deadline_ms
        }),
    decreases n,
{
    if m.elapsed_ms < m.deadline_ms {
        let (m1, a) = m.observe_spec(false);
        lemma_stuck_line_times_out(m1, (n - 1) as nat);
    }
}

} // verus!
