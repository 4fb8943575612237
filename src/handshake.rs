use vstd::prelude::*;

use crate::error::BringupError;
use crate::message::{
    classify, classify_spec, is_busy_reply, is_user_event_reply, valid_cause, InterfaceMessage,
};

verus! {

/// What the handshake asks of the caller next.
#[derive(Clone, Copy, Debug, PartialEq, Eq, Structural)]
pub enum HandshakeAction {
    /// Write the wake byte to the controller and read its reply.
    WakeAndRead,
    /// Wait `delay_ms`, then look at the interrupt line again.
    WaitThenCheckLine { delay_ms: u32 },
    /// The line was observed high: the controller has let go of it.
    Released,
    /// The controller answered with a valid user event.
    Accepted { cause: u8 },
    /// The handshake cannot complete.
    Failed(BringupError),
}

/// The companion-controller handshake, as a state machine driven by the
/// interrupt line's level and the controller's replies.
///
/// The caller checks the line first; while it is low the handshake asks for
/// a wake write and a read, and a `Busy` reply asks for a wait before the next
/// round. At most `max_attempts` reads are made.
#[derive(Clone, Copy, Debug, PartialEq, Eq, Structural)]
pub struct Handshake {
    /// Reads made so far.
    pub attempts: u32,
    /// The retry budget: the largest number of reads.
    pub max_attempts: u32,
    /// How long to wait after a `Busy` reply.
    pub retry_delay_ms: u32,
}

impl Handshake {
    pub open spec fn wf(self) -> bool {
        self.attempts <= self.max_attempts
    }

    /// Time spent in retry waits so far, which is `retry_delay_ms` after each
    /// read while no read has ended the handshake.
    pub open spec fn waited_ms(self) -> int {
        self.attempts * self.retry_delay_ms
    }

    /// The transition on an observation of the interrupt line.
    pub open spec fn on_line_spec(self, high: bool) -> (Handshake, HandshakeAction) {
        if high {
            (self, HandshakeAction::Released)
        } else if self.attempts >= self.max_attempts {
            (
                self,
                HandshakeAction::Failed(
                    BringupError::LineStuckTimeout { elapsed_ms: self.waited_ms() as u64 },
                ),
            )
        } else {
            (self, HandshakeAction::WakeAndRead)
        }
    }

    /// The transition on the bytes of a read.
    pub open spec fn on_reply_spec(self, buf: Seq<u8>) -> (Handshake, HandshakeAction) {
        let next = Handshake { attempts: (self.attempts + 1) as u32, ..self };
        match classify_spec(buf) {
            Ok(InterfaceMessage::Busy) => (
                next,
                HandshakeAction::WaitThenCheckLine { delay_ms: self.retry_delay_ms },
            ),
            Ok(InterfaceMessage::UserEvent { cause }) => (
                next,
                HandshakeAction::Accepted { cause },
            ),
            Ok(InterfaceMessage::Malformed) => (
                next,
                HandshakeAction::Failed(BringupError::ProtocolViolation),
            ),
            Err(e) => (next, HandshakeAction::Failed(e)),
        }
    }

    /// A fresh handshake with the given retry budget and retry delay.
    pub fn new(max_attempts: u32, retry_delay_ms: u32) -> (h: Handshake)
        ensures
            h.wf(),
            h == (Handshake { attempts: 0, max_attempts, retry_delay_ms }),
    {
        Handshake { attempts: 0, max_attempts, retry_delay_ms }
    }

    /// Takes the interrupt line's level: a high line ends the handshake; a low
    /// line asks for a wake write and a read, or fails with
    /// `LineStuckTimeout` once the retry budget is spent.
    pub fn on_line(&mut self, high: bool) -> (r: HandshakeAction)
        requires
            old(self).wf(),
        ensures
            final(self).wf(),
            (*final(self), r) == old(self).on_line_spec(high),
    {
        if high {
            HandshakeAction::Released
        } else if self.attempts >= self.max_attempts {
            proof {
                let (a, d) = (self.attempts as int, self.retry_delay_ms as int);
                assert(a * d <= 0xffff_ffffint * 0xffff_ffffint) by (nonlinear_arith)
                    requires
                        0 <= a <= 0xffff_ffff,
                        0 <= d <= 0xffff_ffff,
                ;
            }
            let elapsed_ms: u64 = self.attempts as u64 * self.retry_delay_ms as u64;
            HandshakeAction::Failed(BringupError::LineStuckTimeout { elapsed_ms })
        } else {
            HandshakeAction::WakeAndRead
        }
    }

    /// Takes the bytes of a read: `Busy` asks for a wait and another round, a
    /// valid user event completes the handshake, anything else fails it with
    /// `ProtocolViolation`, without retry.
    pub fn on_reply(&mut self, buf: &[u8]) -> (r: HandshakeAction)
        requires
            old(self).wf(),
            old(self).attempts < old(self).max_attempts,
        ensures
            final(self).wf(),
            (*final(self), r) == old(self).on_reply_spec(buf@),
    {
        self.attempts = self.attempts + 1;
        match classify(buf) {
            Ok(InterfaceMessage::Busy) => HandshakeAction::WaitThenCheckLine {
                delay_ms: self.retry_delay_ms,
            },
            Ok(InterfaceMessage::UserEvent { cause }) => HandshakeAction::Accepted { cause },
            Ok(InterfaceMessage::Malformed) => HandshakeAction::Failed(
                BringupError::ProtocolViolation,
            ),
            Err(e) => HandshakeAction::Failed(e),
        }
    }
}

/// One round against a line that stays low: look at the line, and where the
/// handshake asks for a read, hand it `buf`.
pub open spec fn round_low(h: Handshake, buf: Seq<u8>) -> (Handshake, HandshakeAction) {
    let (h1, a) = h.on_line_spec(false);
    if a == HandshakeAction::WakeAndRead {
        h1.on_reply_spec(buf)
    } else {
        (h1, a)
    }
}

/// Rounds against a line that stays low, the controller answering with
/// `replies` in turn, until an action other than a retry wait comes.
/// `None` as action: the replies ran out while the handshake still waited.
pub open spec fn run_low(h: Handshake, replies: Seq<Seq<u8>>) -> (Handshake, Option<HandshakeAction>)
    decreases replies.len(),
{
    if replies.len() == 0 {
        (h, None)
    } else {
        let (h1, a) = round_low(h, replies[0]);
        match a {
            HandshakeAction::WaitThenCheckLine { .. } => run_low(h1, replies.drop_first()),
            _ => (h1, Some(a)),
        }
    }
}

/// Every reply of the sequence is a `Busy` reply.
pub open spec fn all_busy(replies: Seq<Seq<u8>>) -> bool {
    forall|i: int| 0 <= i < replies.len() ==> #[trigger] is_busy_reply(replies[i])
}

proof fn lemma_busy_prefix(h: Handshake, replies: Seq<Seq<u8>>, k: nat)
    requires
        h.wf(),
        k <= replies.len(),
        h.attempts + k <= h.max_attempts,
        forall|i: int| 0 <= i < k ==> #[trigger] is_busy_reply(replies[i]),
    ensures
        run_low(h, replies) == run_low(
            Handshake { attempts: (h.attempts + k) as u32, ..h },
            replies.subrange(k as int, replies.len() as int),
        ),
    decreases k,
{
    if k > 0 {
        let rest = replies.drop_first();
        assert(is_busy_reply(replies[0]));
        let h1 = Handshake { attempts: (h.attempts + 1) as u32, ..h };
        assert(round_low(h, replies[0]).0 == h1);
        assert forall|i: int| 0 <= i < k - 1 implies #[trigger] is_busy_reply(rest[i]) by {
            assert(is_busy_reply(replies[i + 1]));
        }
        lemma_busy_prefix(h1, rest, (k - 1) as nat);
        assert(rest.subrange((k - 1) as int, rest.len() as int) =~= replies.subrange(
            k as int,
            replies.len() as int,
        ));
    } else {
        assert(replies.subrange(0, replies.len() as int) =~= replies);
    }
}

/// A controller that answers `Busy` exactly `k` times and then with a user
/// event of valid cause `c`, on a line that stays low: when `k` is below the
/// retry budget, the handshake accepts cause `c` after exactly `k + 1` reads.
pub proof fn lemma_busy_then_event_accepted(
    max_attempts: u32,
    retry_delay_ms: u32,
    replies: Seq<Seq<u8>>,
    k: nat,
)
    requires
        replies.len() == k + 1,
        forall|i: int| 0 <= i < k ==> #[trigger] is_busy_reply(replies[i]),
        is_user_event_reply(replies[k as int]),
        valid_cause(replies[k as int][3]),
        k < max_attempts,
    ensures
        ({
            let (h, a) = run_low(Handshake { attempts: 0, max_attempts, retry_delay_ms }, replies);
            a == Some(HandshakeAction::Accepted { cause: replies[k as int][3] }) && h.attempts
                == k + 1
        }),
{
    let h0 = Handshake { attempts: 0, max_attempts, retry_delay_ms };
    lemma_busy_prefix(h0, replies, k);
    let tail = replies.subrange(k as int, replies.len() as int);
    assert(tail[0] == replies[k as int]);
    assert(!is_busy_reply(tail[0]));
    assert(tail.drop_first().len() == 0);
}

/// A controller that never stops answering `Busy`, on a line that stays low:
/// the handshake fails with `LineStuckTimeout` after exactly `max_attempts`
/// reads, reporting the time spent in retry waits, whatever the number of
/// further `Busy` replies on offer.
pub proof fn lemma_busy_forever_times_out(
    max_attempts: u32,
    retry_delay_ms: u32,
    replies: Seq<Seq<u8>>,
)
    requires
        replies.len() > max_attempts,
        all_busy(replies),
    ensures
        ({
            let (h, a) = run_low(Handshake { attempts: 0, max_attempts, retry_delay_ms }, replies);
            &&& a == Some(
                HandshakeAction::Failed(
                    BringupError::LineStuckTimeout {
                        elapsed_ms: (max_attempts * retry_delay_ms) as u64,
                    },
                ),
            )
            &&& h.attempts == max_attempts
        }),
{
    let h0 = Handshake { attempts: 0, max_attempts, retry_delay_ms };
    let k = max_attempts as nat;
    assert forall|i: int| 0 <= i < k implies #[trigger] is_busy_reply(replies[i]) by {
        assert(is_busy_reply(replies[i]));
    }
    lemma_busy_prefix(h0, replies, k);
    let tail = replies.subrange(k as int, replies.len() as int);
    assert(tail.len() > 0);
}

} // verus!
