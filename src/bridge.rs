use vstd::prelude::*;

verus! {

/// The hardware event channel tied to the shared interrupt line.
#[derive(Clone, Copy, Debug, PartialEq, Eq, Structural)]
pub struct EventChannel {
    /// Events are raised on the falling (high-to-low) edge of the line.
    pub falling_edge: bool,
    /// The channel raises an interrupt request on an event.
    pub interrupt_enabled: bool,
    /// An event is latched and not yet cleared.
    pub event_latched: bool,
}

impl EventChannel {
    /// Configured as the bridge needs it: falling edge, interrupt enabled,
    /// nothing pending.
    pub open spec fn ready_spec(self) -> bool {
        self.falling_edge && self.interrupt_enabled && !self.event_latched
    }

    /// A channel straight out of reset: not configured, and a stale event may
    /// be latched until it is cleared.
    pub fn new() -> (c: EventChannel)
        ensures
            c == (EventChannel { falling_edge: false, interrupt_enabled: false, event_latched: true }),
    {
        EventChannel { falling_edge: false, interrupt_enabled: false, event_latched: true }
    }

    /// Selects the falling edge and enables the channel's interrupt.
    pub fn configure_falling_edge(&mut self)
        ensures
            *final(self) == (EventChannel {
                falling_edge: true,
                interrupt_enabled: true,
                ..*old(self)
            }),
    {
        self.falling_edge = true;
        self.interrupt_enabled = true;
    }

    /// Clears the latched event flag.
    pub fn clear_events(&mut self)
        ensures
            *final(self) == (EventChannel { event_latched: false, ..*old(self) }),
    {
        self.event_latched = false;
    }

    /// Whether the channel may be armed.
    pub fn is_ready(&self) -> (r: bool)
        ensures
            r == self.ready_spec(),
    {
        self.falling_edge && self.interrupt_enabled && !self.event_latched
    }
}

/// What the bridge holds, seen from outside.
pub ghost struct BridgeState {
    /// The shared slot: empty until the channel is armed.
    pub slot: Option<EventChannel>,
    /// The interrupt line is unmasked at the interrupt controller.
    pub unmasked: bool,
    /// The sensor's data-ready notification is enabled.
    pub notifications_enabled: bool,
}

impl BridgeState {
    /// The ordering of bring-up: a channel is in the slot, and was ready when
    /// it went in, before the line is unmasked; the line is unmasked before
    /// the sensor may notify.
    pub open spec fn wf(self) -> bool {
        &&& self.unmasked ==> self.slot is Some
        &&& (self.slot matches Some(c) ==> c.falling_edge && c.interrupt_enabled)
        &&& self.notifications_enabled ==> self.unmasked
    }

    /// The interrupt handler can run: only then is it reachable at all.
    pub open spec fn interrupt_reachable(self) -> bool {
        self.unmasked
    }

    /// The handler would be entered now: reachable and an event is latched.
    pub open spec fn interrupt_pending(self) -> bool {
        self.unmasked && (self.slot matches Some(c) && c.event_latched)
    }
}

pub open spec fn initial_bridge() -> BridgeState {
    BridgeState { slot: None, unmasked: false, notifications_enabled: false }
}

/// One step of bring-up or of interrupt handling on the bridge.
pub ghost enum BridgeOp {
    Arm(EventChannel),
    Unmask,
    EnableNotifications,
    HardwareEvent,
    Acknowledge,
}

/// The effect of one step; `None` where the step is not allowed in that state.
pub open spec fn apply_op(b: BridgeState, op: BridgeOp) -> Option<BridgeState> {
    match op {
        BridgeOp::Arm(c) => if b.slot is None && c.ready_spec() {
            Some(BridgeState { slot: Some(c), ..b })
        } else {
            None
        },
        BridgeOp::Unmask => if b.slot is Some {
            Some(BridgeState { unmasked: true, ..b })
        } else {
            None
        },
        BridgeOp::EnableNotifications => if b.unmasked {
            Some(BridgeState { notifications_enabled: true, ..b })
        } else {
            None
        },
        BridgeOp::HardwareEvent => match b.slot {
            Some(c) => Some(
                BridgeState { slot: Some(EventChannel { event_latched: true, ..c }), ..b },
            ),
            None => Some(b),
        },
        BridgeOp::Acknowledge => match b.slot {
            Some(c) => if b.unmasked {
                Some(
                    BridgeState { slot: Some(EventChannel { event_latched: false, ..c }), ..b },
                )
            } else {
                None
            },
            None => None,
        },
    }
}

/// The state after the steps `ops` from `b`; `None` once a step is not allowed.
pub open spec fn apply_ops(b: BridgeState, ops: Seq<BridgeOp>) -> Option<BridgeState>
    decreases ops.len(),
{
    if ops.len() == 0 {
        Some(b)
    } else {
        match apply_op(b, ops[0]) {
            Some(b1) => apply_ops(b1, ops.drop_first()),
            None => None,
        }
    }
}

/// Guarded access to the event channel, shared by the main context and the
/// interrupt context. Once armed, the channel is touched only by
/// `acknowledge`.
pub struct InterruptBridge {
    slot: Option<EventChannel>,
    unmasked: bool,
    notifications_enabled: bool,
}

impl View for InterruptBridge {
    type V = BridgeState;

    closed spec fn view(&self) -> BridgeState {
        BridgeState {
            slot: self.slot,
            unmasked: self.unmasked,
            notifications_enabled: self.notifications_enabled,
        }
    }
}

impl InterruptBridge {
    /// An empty bridge with the line masked.
    pub fn new() -> (b: InterruptBridge)
        ensures
            b@ == initial_bridge(),
    {
        InterruptBridge { slot: None, unmasked: false, notifications_enabled: false }
    }

    /// Moves a ready channel into the empty slot. Arming twice, or arming a
    /// channel that is not ready, is not allowed.
    pub fn arm(&mut self, channel: EventChannel)
        requires
            old(self)@.slot is None,
            channel.ready_spec(),
        ensures
            Some(final(self)@) == apply_op(old(self)@, BridgeOp::Arm(channel)),
    {
        self.slot = Some(channel);
    }

    /// Unmasks the interrupt line; the slot must hold the armed channel.
    pub fn unmask(&mut self)
        requires
            old(self)@.slot is Some,
        ensures
            Some(final(self)@) == apply_op(old(self)@, BridgeOp::Unmask),
    {
        self.unmasked = true;
    }

    /// Records that the sensor's data-ready notification is enabled; the line
    /// must be unmasked first.
    pub fn enable_notifications(&mut self)
        requires
            old(self)@.unmasked,
        ensures
            Some(final(self)@) == apply_op(old(self)@, BridgeOp::EnableNotifications),
    {
        self.notifications_enabled = true;
    }

    /// An edge on the line latches an event on the armed channel.
    pub fn hardware_event(&mut self)
        ensures
            Some(final(self)@) == apply_op(old(self)@, BridgeOp::HardwareEvent),
    {
        match &mut self.slot {
            Some(c) => {
                c.event_latched = true;
            },
            None => {},
        }
    }

    /// Whether the slot holds the armed channel.
    pub fn is_armed(&self) -> (r: bool)
        ensures
            r == self@.slot is Some,
    {
        self.slot.is_some()
    }

    /// Whether the interrupt line is unmasked, so that the handler can run.
    pub fn is_unmasked(&self) -> (r: bool)
        ensures
            r == self@.interrupt_reachable(),
    {
        self.unmasked
    }

    /// Whether the interrupt handler would be entered now.
    pub fn interrupt_pending(&self) -> (r: bool)
        ensures
            r == self@.interrupt_pending(),
    {
        match &self.slot {
            Some(c) => self.unmasked && c.event_latched,
            None => false,
        }
    }

    /// The interrupt handler's one operation: clears the armed channel's
    /// latched event, and nothing else.
    pub fn acknowledge(&mut self)
        requires
            old(self)@.interrupt_reachable(),
            old(self)@.slot is Some,
        ensures
            Some(final(self)@) == apply_op(old(self)@, BridgeOp::Acknowledge),
    {
        match &mut self.slot {
            Some(c) => {
                c.event_latched = false;
            },
            None => {},
        }
    }
}

/// Every step that is allowed keeps the bring-up ordering.
pub proof fn lemma_op_keeps_wf(b: BridgeState, op: BridgeOp)
    requires
        b.wf(),
    ensures
        apply_op(b, op) matches Some(b1) ==> b1.wf(),
{
}

/// Arming and acknowledging interleave safely: from the initial state, after
/// any sequence of allowed steps, the interrupt handler is either not
/// reachable because the line is still masked, or it finds the armed,
/// configured channel in the slot, and its acknowledge is allowed, clears the
/// latched event and changes nothing else.
pub proof fn lemma_acknowledge_sees_armed_channel(ops: Seq<BridgeOp>)
    requires
        apply_ops(initial_bridge(), ops) is Some,
    ensures
        ({
            let b = apply_ops(initial_bridge(), ops).unwrap();
            &&& b.wf()
            &&& b.interrupt_reachable() ==> {
                &&& b.slot matches Some(c) && c.falling_edge && c.interrupt_enabled
                &&& apply_op(b, BridgeOp::Acknowledge) == Some(
                    BridgeState {
                        slot: Some(EventChannel { event_latched: false, ..b.slot.unwrap() }),
                        ..b
                    },
                )
            }
        }),
{
    lemma_ops_keep_wf(initial_bridge(), ops);
}

proof fn lemma_ops_keep_wf(b: BridgeState, ops: Seq<BridgeOp>)
    requires
        b.wf(),
        apply_ops(b, ops) is Some,
    ensures
        apply_ops(b, ops).unwrap().wf(),
    decreases ops.len(),
{
    if ops.len() > 0 {
        lemma_op_keeps_wf(b, ops[0]);
        lemma_ops_keep_wf(apply_op(b, ops[0]).unwrap(), ops.drop_first());
    }
}

} // verus!
