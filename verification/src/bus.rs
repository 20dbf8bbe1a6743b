//! The arbiter of the shared bus.
//!
//! One bus controller serves several logical devices, each with its own clock
//! rate and transfer mode. The arbiter grants the controller to one device at
//! a time. A grant is a [`BusSession`]; the controller has to be reconfigured
//! for the session before the first byte moves, and every transfer has to be
//! cleared with [`Arbiter::permits`].
//!
//! The arbiter does not drive the controller. The caller reconfigures it when
//! a session is granted and reports how that went; the arbiter decides who may
//! use the bus and when it is free again.

use crate::fault::{BusFault, SdError, UsageFault};
use vstd::prelude::*;

verus! {

/// Clock polarity and phase of a transfer.
#[derive(Clone, Copy, Debug, PartialEq, Eq, Structural)]
pub enum TransferMode {
    Mode0,
    Mode1,
    Mode2,
    Mode3,
}

/// What a logical device needs of the controller.
#[derive(Clone, Copy, Debug, PartialEq, Eq, Structural)]
pub struct BusConfig {
    /// Clock rate in hertz.
    pub clock_hz: u32,
    pub mode: TransferMode,
}

/// The right of one logical device to use the bus, from its grant to its
/// release.
#[derive(Clone, Copy, Debug, PartialEq, Eq, Structural)]
pub struct BusSession {
    /// The logical device that holds the session.
    pub device: u8,
    /// The number of the grant: no two grants of one arbiter share it.
    pub serial: u64,
    /// What the controller is set to for this session.
    pub config: BusConfig,
}

/// The state of an arbiter, as contracts see it.
pub struct BusState {
    /// The session that holds the bus, if one does.
    pub holder: Option<BusSession>,
    /// Whether the controller has been reconfigured for the holder.
    pub ready: bool,
    /// What the controller is known to be set to.
    pub applied: Option<BusConfig>,
    /// How many sessions have been granted so far.
    pub granted: nat,
}

/// One call on an arbiter, as a value.
pub enum BusEvent {
    /// A device asks for the bus.
    Acquire { device: u8, config: BusConfig },
    /// The caller reports how the reconfiguration for a session went.
    Configured { session: BusSession, outcome: Result<(), BusFault> },
    /// A session wants to move one byte.
    Transfer { session: BusSession },
    /// A session gives the bus back.
    Release { session: BusSession },
}

impl BusState {
    /// The state of a new arbiter: free, nothing configured, nothing granted.
    pub open spec fn idle() -> BusState {
        BusState { holder: None, ready: false, applied: None, granted: 0 }
    }

    /// Whether a session can be granted now.
    pub open spec fn can_grant(self) -> bool {
        self.holder is None && self.granted < u64::MAX
    }

    /// The session that the next grant hands out.
    pub open spec fn next_session(self, device: u8, config: BusConfig) -> BusSession {
        BusSession { device, serial: (self.granted + 1) as u64, config }
    }

    /// Whether `session` holds the bus and still waits for its reconfiguration.
    pub open spec fn awaits(self, session: BusSession) -> bool {
        self.holder == Some(session) && !self.ready
    }

    /// Whether `session` may move bytes now: it holds the bus, and the
    /// controller has been reconfigured for it.
    pub open spec fn permits(self, session: BusSession) -> bool {
        self.holder == Some(session) && self.ready
    }

    /// The state with the bus free and the configuration forgotten.
    pub open spec fn freed(self) -> BusState {
        BusState { holder: None, ready: false, applied: None, granted: self.granted }
    }

    /// The state after one call. A call that the arbiter rejects leaves the
    /// state as it was.
    pub open spec fn step(self, event: BusEvent) -> BusState {
        match event {
            BusEvent::Acquire { device, config } => if self.can_grant() {
                BusState {
                    holder: Some(self.next_session(device, config)),
                    ready: false,
                    applied: self.applied,
                    granted: self.granted + 1,
                }
            } else {
                self
            },
            BusEvent::Configured { session, outcome } => if self.awaits(session) {
                match outcome {
                    Ok(_) => BusState {
                        holder: self.holder,
                        ready: true,
                        applied: Some(session.config),
                        granted: self.granted,
                    },
                    Err(_) => self.freed(),
                }
            } else {
                self
            },
            BusEvent::Transfer { session } => self,
            BusEvent::Release { session } => if self.holder == Some(session) {
                self.freed()
            } else {
                self
            },
        }
    }

    /// The state after a sequence of calls, made in order.
    pub open spec fn run(self, events: Seq<BusEvent>) -> BusState
        decreases events.len(),
    {
        if events.len() == 0 {
            self
        } else {
            self.run(events.drop_last()).step(events.last())
        }
    }

    /// The bytes that reach the bus during a sequence of calls, each marked
    /// with the session that moved it: one entry for every transfer that the
    /// arbiter cleared, in the order of the calls.
    pub open spec fn wire(self, events: Seq<BusEvent>) -> Seq<BusSession>
        decreases events.len(),
    {
        if events.len() == 0 {
            Seq::empty()
        } else {
            let before = self.run(events.drop_last());
            let earlier = self.wire(events.drop_last());
            match events.last() {
                BusEvent::Transfer { session } => if before.permits(session) {
                    earlier.push(session)
                } else {
                    earlier
                },
                _ => earlier,
            }
        }
    }

    /// What holds of every state that an arbiter reaches: the holder carries
    /// the number of the latest grant, and a free bus is not ready.
    pub open spec fn wf(self) -> bool {
        &&& self.granted <= u64::MAX
        &&& self.holder is Some ==> self.holder.unwrap().serial == self.granted
        &&& self.holder is None ==> !self.ready
        &&& self.ready ==> self.applied == Some(self.holder.unwrap().config)
    }
}

/// Whether the bytes of each session lie together on the bus: between two
/// bytes of one session there is no byte of another, and one serial number
/// never marks two sessions.
pub open spec fn exclusive(wire: Seq<BusSession>) -> bool {
    forall|i: int, j: int, k: int|
        0 <= i <= j <= k < wire.len() && wire[i].serial == wire[k].serial ==> wire[j] == wire[i]
}

/// What the proof of mutual exclusion carries from call to call.
spec fn trace_inv(s: BusState, w: Seq<BusSession>) -> bool {
    &&& s.wf()
    &&& forall|i: int, j: int| 0 <= i <= j < w.len() ==> w[i].serial <= w[j].serial
    &&& forall|i: int| 0 <= i < w.len() ==> #[trigger] w[i].serial <= s.granted
    &&& forall|i: int, j: int|
        0 <= i < w.len() && 0 <= j < w.len() && w[i].serial == w[j].serial ==> w[i] == w[j]
    &&& forall|i: int|
        0 <= i < w.len() && s.holder is Some && #[trigger] w[i].serial == s.granted ==> w[i]
            == s.holder.unwrap()
}

proof fn lemma_trace_inv(start: BusState, events: Seq<BusEvent>)
    requires
        start.wf(),
    ensures
        trace_inv(start.run(events), start.wire(events)),
    decreases events.len(),
{
    if events.len() > 0 {
        lemma_trace_inv(start, events.drop_last());
        let before = start.run(events.drop_last());
        let earlier = start.wire(events.drop_last());
        let after = start.run(events);
        let w = start.wire(events);
        match events.last() {
            BusEvent::Transfer { session } => {
                if before.permits(session) {
                    assert(w == earlier.push(session));
                    assert forall|i: int, j: int| 0 <= i <= j < w.len() implies w[i].serial
                        <= w[j].serial by {
                        if j == earlier.len() && i < earlier.len() {
                            assert(earlier[i].serial <= before.granted);
                        }
                    }
                    assert forall|i: int, j: int|
                        0 <= i < w.len() && 0 <= j < w.len() && w[i].serial
                            == w[j].serial implies w[i] == w[j] by {
                        if i < earlier.len() && j == earlier.len() {
                            assert(earlier[i].serial == before.granted);
                        }
                        if j < earlier.len() && i == earlier.len() {
                            assert(earlier[j].serial == before.granted);
                        }
                    }
                }
            },
            BusEvent::Acquire { device, config } => {
                assert(w == earlier);
                if before.can_grant() {
                    assert forall|i: int|
                        0 <= i < w.len() && after.holder is Some && #[trigger] w[i].serial
                            == after.granted implies w[i] == after.holder.unwrap() by {
                        assert(earlier[i].serial <= before.granted);
                    }
                }
            },
            BusEvent::Configured { session, outcome } => {
                assert(w == earlier);
            },
            BusEvent::Release { session } => {
                assert(w == earlier);
            },
        }
    }
}

/// Mutual exclusion. Whatever calls are made on an arbiter, by however many
/// devices and in whatever order, the bytes that reach the bus from then on
/// lie together session by session: no byte of one session stands between
/// two bytes of another.
pub proof fn lemma_sessions_never_interleave(start: BusState, events: Seq<BusEvent>)
    requires
        start.wf(),
    ensures
        exclusive(start.wire(events)),
{
    lemma_trace_inv(start, events);
    let w = start.wire(events);
    assert forall|i: int, j: int, k: int|
        0 <= i <= j <= k < w.len() && w[i].serial == w[k].serial implies w[j] == w[i] by {
        assert(w[i].serial <= w[j].serial);
        assert(w[j].serial <= w[k].serial);
    }
}

/// A byte reaches the bus only from the session that holds it: every byte
/// of a run carries the serial number of a session that had been granted by
/// then.
pub proof fn lemma_bytes_come_from_granted_sessions(start: BusState, events: Seq<BusEvent>)
    requires
        start.wf(),
    ensures
        forall|i: int|
            0 <= i < start.wire(events).len() ==> (#[trigger] start.wire(events)[i]).serial
                <= start.run(events).granted,
{
    lemma_trace_inv(start, events);
}

/// Ordering of reconfiguration and transfer. In every well-formed state, a
/// session that may move bytes holds the bus, and the controller is set to
/// that session's configuration.
pub proof fn lemma_transfer_follows_configuration(s: BusState, session: BusSession)
    requires
        s.wf(),
        s.permits(session),
    ensures
        s.applied == Some(session.config),
        s.holder == Some(session),
{
}

/// Every state that an arbiter reaches is well formed, and at most one
/// session holds the bus in it.
pub proof fn lemma_run_wf(start: BusState, events: Seq<BusEvent>)
    requires
        start.wf(),
    ensures
        start.run(events).wf(),
{
    lemma_trace_inv(start, events);
}

/// The arbiter of one bus controller.
pub struct Arbiter {
    holder: Option<BusSession>,
    ready: bool,
    applied: Option<BusConfig>,
    granted: u64,
}

impl View for Arbiter {
    type V = BusState;

    closed spec fn view(&self) -> BusState {
        BusState {
            holder: self.holder,
            ready: self.ready,
            applied: self.applied,
            granted: self.granted as nat,
        }
    }
}

impl Arbiter {
    #[verifier::type_invariant]
    spec fn inv(self) -> bool {
        self@.wf()
    }

    /// An arbiter whose bus is free.
    pub fn new() -> (r: Arbiter)
        ensures
            r@ == BusState::idle(),
    {
        Arbiter { holder: None, ready: false, applied: None, granted: 0 }
    }

    /// Whether no session holds the bus.
    pub fn is_free(&self) -> (r: bool)
        ensures
            r == (self@.holder is None),
            self@.wf(),
    {
        proof {
            use_type_invariant(self);
        }
        self.holder.is_none()
    }

    /// The session that holds the bus, if one does.
    pub fn holder(&self) -> (r: Option<BusSession>)
        ensures
            r == self@.holder,
    {
        self.holder
    }

    /// What the controller is known to be set to: the configuration of the
    /// holder once its reconfiguration has been reported, and nothing
    /// otherwise.
    pub fn applied(&self) -> (r: Option<BusConfig>)
        ensures
            r == self@.applied,
    {
        self.applied
    }

    /// Grants the bus to `device` if it is free.
    ///
    /// The session that comes back may not move bytes yet: the caller
    /// reconfigures the controller to `config` and reports the outcome with
    /// [`Arbiter::configured`]. A bus that is held gives `Busy`, and the
    /// caller asks again later.
    pub fn acquire(&mut self, device: u8, config: BusConfig) -> (r: Result<BusSession, UsageFault>)
        ensures
            final(self)@ == old(self)@.step(BusEvent::Acquire { device, config }),
            match r {
                Ok(session) => old(self)@.can_grant() && session == old(self)@.next_session(
                    device,
                    config,
                ) && final(self)@.awaits(session),
                Err(fault) => !old(self)@.can_grant() && fault == (if old(self)@.holder is Some {
                    UsageFault::Busy
                } else {
                    UsageFault::TableFull
                }),
            },
    {
        proof {
            use_type_invariant(&*self);
        }
        if self.holder.is_some() {
            return Err(UsageFault::Busy);
        }
        if self.granted == u64::MAX {
            return Err(UsageFault::TableFull);
        }
        let session = BusSession { device, serial: self.granted + 1, config };
        *self = Arbiter {
            holder: Some(session),
            ready: false,
            applied: self.applied,
            granted: session.serial,
        };
        Ok(session)
    }

    /// Takes the report on the reconfiguration of the controller for
    /// `session`.
    ///
    /// A success lets the session move bytes. A failure ends the session: the
    /// bus is free again, no configuration is taken as applied, and the fault
    /// comes back. A report for a session that does not wait for one is
    /// rejected and changes nothing.
    pub fn configured(&mut self, session: &BusSession, outcome: Result<(), BusFault>) -> (r: Result<
        (),
        SdError,
    >)
        ensures
            final(self)@ == old(self)@.step(
                BusEvent::Configured { session: *session, outcome },
            ),
            r == (if !old(self)@.awaits(*session) {
                Err::<(), SdError>(SdError::Usage(UsageFault::UnknownHandle))
            } else {
                match outcome {
                    Ok(_) => Ok(()),
                    Err(fault) => Err(SdError::Bus(fault)),
                }
            }),
            r is Ok ==> final(self)@.permits(*session),
            old(self)@.awaits(*session) && outcome is Err ==> final(self)@.holder is None,
    {
        proof {
            use_type_invariant(&*self);
        }
        if !self.is_holder(session) || self.ready {
            return Err(SdError::Usage(UsageFault::UnknownHandle));
        }
        match outcome {
            Ok(_) => {
                *self = Arbiter {
                    holder: self.holder,
                    ready: true,
                    applied: Some(session.config),
                    granted: self.granted,
                };
                Ok(())
            },
            Err(fault) => {
                *self = Arbiter { holder: None, ready: false, applied: None, granted: self.granted };
                Err(SdError::Bus(fault))
            },
        }
    }

    /// Whether `session` may move bytes now.
    pub fn permits(&self, session: &BusSession) -> (r: bool)
        ensures
            r == self@.permits(*session),
    {
        self.is_holder(session) && self.ready
    }

    /// Ends `session` and frees the bus. The configuration of the controller
    /// counts as unknown afterwards. A session that does not hold the bus is
    /// rejected, and nothing changes.
    pub fn release(&mut self, session: &BusSession) -> (r: Result<(), UsageFault>)
        ensures
            final(self)@ == old(self)@.step(BusEvent::Release { session: *session }),
            r == (if old(self)@.holder == Some(*session) {
                Ok::<(), UsageFault>(())
            } else {
                Err(UsageFault::UnknownHandle)
            }),
            r is Ok ==> final(self)@.holder is None,
    {
        proof {
            use_type_invariant(&*self);
        }
        if !self.is_holder(session) {
            return Err(UsageFault::UnknownHandle);
        }
        *self = Arbiter { holder: None, ready: false, applied: None, granted: self.granted };
        Ok(())
    }

    /// Runs `body` inside a session of its own.
    ///
    /// The bus is acquired for `device`, `reconfigure` sets the controller to
    /// `config`, `body` runs with the session, and the session is released.
    /// If the bus is held, neither closure runs. If the reconfiguration
    /// fails, `body` does not run and the fault comes back. However the call
    /// ends, the bus is held afterwards by whoever held it before: a bus that
    /// was free is free again.
    pub fn with_session<R, C, B>(
        &mut self,
        device: u8,
        config: BusConfig,
        reconfigure: C,
        body: B,
    ) -> (r: Result<R, SdError>) where
        C: FnOnce(BusConfig) -> Result<(), BusFault>,
        B: FnOnce(BusSession) -> R,

        requires
            reconfigure.requires((config,)),
            forall|session: BusSession| body.requires((session,)),
        ensures
            final(self)@.holder == old(self)@.holder,
            !old(self)@.can_grant() ==> final(self)@ == old(self)@,
            old(self)@.can_grant() ==> final(self)@ == (BusState {
                granted: old(self)@.granted + 1,
                ..old(self)@.freed()
            }),
            match r {
                Ok(value) => {
                    &&& old(self)@.can_grant()
                    &&& reconfigure.ensures((config,), Ok(()))
                    &&& body.ensures((old(self)@.next_session(device, config),), value)
                },
                Err(SdError::Bus(fault)) => {
                    &&& old(self)@.can_grant()
                    &&& reconfigure.ensures((config,), Err(fault))
                },
                Err(SdError::Usage(fault)) => {
                    &&& !old(self)@.can_grant()
                    &&& fault == (if old(self)@.holder is Some {
                        UsageFault::Busy
                    } else {
                        UsageFault::TableFull
                    })
                },
                Err(_) => false,
            },
    {
        let session = match self.acquire(device, config) {
            Ok(session) => session,
            Err(fault) => {
                return Err(SdError::Usage(fault));
            },
        };
        let outcome = reconfigure(config);
        match self.configured(&session, outcome) {
            Ok(_) => {},
            Err(fault) => {
                return Err(fault);
            },
        }
        assert(outcome->Ok_0 == ());
        let value = body(session);
        let _ = self.release(&session);
        Ok(value)
    }

    fn is_holder(&self, session: &BusSession) -> (r: bool)
        ensures
            r == (self@.holder == Some(*session)),
    {
        match self.holder {
            Some(h) => h == *session,
            None => false,
        }
    }
}

} // verus!
