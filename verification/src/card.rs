//! The block-device adapter: one card on the shared bus.
//!
//! Every operation on the card, the initialisation handshake as much as the
//! reading or writing of a sector, runs in a bus session of its own and
//! follows one script: acquire the bus, reconfigure the controller, assert
//! the chip-select line, exchange with the card, deassert the line, release
//! the bus. A [`Card`] walks through that script. It says which step is due;
//! the caller carries the step out on the hardware and reports how it went.
//! Whatever the reports are, the line is deasserted and the bus released
//! before the operation counts as over.

use crate::bus::{Arbiter, BusConfig, BusEvent, BusSession, BusState};
use crate::fault::{BusFault, CardInitError, CardReport, DeviceFault, SdError, UsageFault};
use vstd::prelude::*;

verus! {

/// The size of a sector in bytes.
pub const SECTOR_BYTES: u64 = 512;

/// An operation on the card.
#[derive(Clone, Copy, Debug, PartialEq, Eq, Structural)]
pub enum CardOp {
    /// The initialisation handshake, which also finds the card's capacity.
    Init,
    /// Reading the sector with this index.
    ReadSector(u32),
    /// Writing the sector with this index.
    WriteSector(u32),
}

/// How far the operation in flight has come.
#[derive(Clone, Copy, Debug, PartialEq, Eq, Structural)]
pub enum Stage {
    /// No operation is in flight.
    Idle,
    /// The bus is acquired; the controller is being reconfigured.
    Configuring,
    /// The chip-select line is being asserted.
    Selecting,
    /// The line is asserted; the exchange with the card is under way.
    Exchanging,
    /// The exchange is over; the line is being deasserted.
    Deselecting,
}

/// What the caller is to do next on the hardware.
#[derive(Clone, Copy, Debug, PartialEq, Eq, Structural)]
pub enum CardStep {
    /// Nothing: no operation is in flight.
    Nothing,
    /// Set the controller to this configuration.
    Reconfigure(BusConfig),
    /// Assert the chip-select line.
    Select,
    /// Carry out the exchange of this operation.
    Exchange(CardOp),
    /// Deassert the chip-select line.
    Deselect,
}

/// A card, as contracts see it.
pub struct CardState {
    /// The logical device that the card is on the bus.
    pub device: u8,
    /// What the card needs of the controller.
    pub config: BusConfig,
    /// The capacity in bytes, once the handshake has found it.
    pub capacity: Option<u64>,
    pub stage: Stage,
    /// The operation in flight.
    pub op: Option<CardOp>,
    /// The bus session of the operation in flight.
    pub session: Option<BusSession>,
    /// Whether the chip-select line is asserted.
    pub selected: bool,
    /// The capacity that the handshake in flight has reported.
    pub reported: Option<u64>,
    /// The fault that the exchange in flight has met.
    pub verdict: Option<SdError>,
    /// How the last operation ended.
    pub result: Option<Result<(), SdError>>,
}

impl CardState {
    /// The state of a new card: not initialised, nothing in flight, the line
    /// deasserted.
    pub open spec fn fresh(device: u8, config: BusConfig) -> CardState {
        CardState {
            device,
            config,
            capacity: None,
            stage: Stage::Idle,
            op: None,
            session: None,
            selected: false,
            reported: None,
            verdict: None,
            result: None,
        }
    }

    /// What holds of every state that a card reaches.
    ///
    /// An operation is in flight exactly while the card has a bus session.
    /// The chip-select line is asserted exactly during the exchange and until
    /// it has been deasserted: never while the card is idle.
    pub open spec fn wf(self) -> bool {
        &&& (self.stage == Stage::Idle) == (self.session is None)
        &&& (self.stage == Stage::Idle) == (self.op is None)
        &&& self.selected == (self.stage == Stage::Exchanging || self.stage == Stage::Deselecting)
        &&& self.verdict is Some ==> self.stage == Stage::Deselecting
        &&& self.session is Some ==> self.session.unwrap().device == self.device
            && self.session.unwrap().config == self.config
    }

    /// The step that is due.
    pub open spec fn next(self) -> CardStep {
        match self.stage {
            Stage::Idle => CardStep::Nothing,
            Stage::Configuring => CardStep::Reconfigure(self.config),
            Stage::Selecting => CardStep::Select,
            Stage::Exchanging => CardStep::Exchange(self.op.unwrap()),
            Stage::Deselecting => CardStep::Deselect,
        }
    }

    /// Why `op` cannot be begun, if it cannot: another operation is in
    /// flight, the card is initialised already, it is not initialised yet, or
    /// the sector lies past its end.
    pub open spec fn refusal(self, op: CardOp) -> Option<SdError> {
        if self.stage != Stage::Idle {
            Some(SdError::Usage(UsageFault::Busy))
        } else {
            match op {
                CardOp::Init => if self.capacity is Some {
                    Some(SdError::Usage(UsageFault::AlreadyOpen))
                } else {
                    None
                },
                CardOp::ReadSector(index) => self.sector_refusal(index),
                CardOp::WriteSector(index) => self.sector_refusal(index),
            }
        }
    }

    /// Why the sector `index` cannot be reached, if it cannot.
    pub open spec fn sector_refusal(self, index: u32) -> Option<SdError> {
        match self.capacity {
            None => Some(SdError::Device(DeviceFault::NotReady)),
            Some(bytes) => if (index as int + 1) * SECTOR_BYTES <= bytes {
                None
            } else {
                Some(SdError::Usage(UsageFault::BadLength))
            },
        }
    }

    /// A bus fault, as the fault of the operation in flight.
    pub open spec fn bus_fault(self, fault: BusFault) -> SdError {
        match self.op {
            Some(CardOp::Init) => SdError::CardInit(CardInitError::Bus(fault)),
            _ => SdError::Device(DeviceFault::Bus(fault)),
        }
    }

    /// A report of the card driver, as the fault of the operation in flight.
    pub open spec fn report_fault(self, report: CardReport) -> SdError {
        match self.op {
            Some(CardOp::Init) => SdError::CardInit(CardInitError::of_report(report)),
            _ => SdError::Device(DeviceFault::of_report(report)),
        }
    }

    /// The state once the operation in flight has ended with `result`. A
    /// handshake that ended well leaves the capacity it found.
    pub open spec fn ended(self, result: Result<(), SdError>) -> CardState {
        CardState {
            capacity: if self.op == Some(CardOp::Init) && result is Ok {
                self.reported
            } else {
                self.capacity
            },
            stage: Stage::Idle,
            op: None,
            session: None,
            selected: false,
            reported: None,
            verdict: None,
            result: Some(result),
            ..self
        }
    }

    /// What the beginning of `op` gives: nothing to object, or why the
    /// operation does not start.
    pub open spec fn beginning(self, bus: BusState, op: CardOp) -> Result<(), SdError> {
        match self.refusal(op) {
            Some(fault) => Err(fault),
            None => if bus.can_grant() {
                Ok(())
            } else if bus.holder is Some {
                Err(SdError::Usage(UsageFault::Busy))
            } else {
                Err(SdError::Usage(UsageFault::TableFull))
            },
        }
    }

    /// The card once `op` has been begun.
    pub open spec fn after_begin(self, bus: BusState, op: CardOp) -> CardState {
        if self.beginning(bus, op) is Ok {
            CardState {
                stage: Stage::Configuring,
                op: Some(op),
                session: Some(bus.next_session(self.device, self.config)),
                result: None,
                ..self
            }
        } else {
            self
        }
    }

    /// The bus once `op` has been begun.
    pub open spec fn bus_after_begin(self, bus: BusState, op: CardOp) -> BusState {
        if self.beginning(bus, op) is Ok {
            bus.step(BusEvent::Acquire { device: self.device, config: self.config })
        } else {
            bus
        }
    }

    /// The card once the reconfiguration of the controller has been
    /// reported. A failure ends the operation before the line is touched.
    pub open spec fn on_configured(self, bus: BusState, outcome: Result<(), BusFault>) -> CardState {
        if self.stage != Stage::Configuring {
            self
        } else if !bus.awaits(self.session.unwrap()) {
            self.ended(Err(SdError::Usage(UsageFault::UnknownHandle)))
        } else {
            match outcome {
                Ok(_) => CardState { stage: Stage::Selecting, ..self },
                Err(fault) => self.ended(Err(self.bus_fault(fault))),
            }
        }
    }

    /// The bus once the reconfiguration has been reported.
    pub open spec fn bus_on_configured(self, bus: BusState, outcome: Result<(), BusFault>) -> BusState {
        if self.stage != Stage::Configuring {
            bus
        } else {
            bus.step(BusEvent::Configured { session: self.session.unwrap(), outcome })
        }
    }

    /// The card once the asserting of the line has been reported. A failure
    /// ends the operation, and the bus is released.
    pub open spec fn on_selected(self, bus: BusState, outcome: Result<(), BusFault>) -> CardState {
        if self.stage != Stage::Selecting {
            self
        } else {
            match outcome {
                Ok(_) => if bus.permits(self.session.unwrap()) {
                    CardState { stage: Stage::Exchanging, selected: true, ..self }
                } else {
                    self.ended(Err(SdError::Usage(UsageFault::UnknownHandle)))
                },
                Err(fault) => self.ended(Err(self.bus_fault(fault))),
            }
        }
    }

    /// The bus once the asserting of the line has been reported.
    pub open spec fn bus_on_selected(self, bus: BusState, outcome: Result<(), BusFault>) -> BusState {
        if self.stage == Stage::Selecting && (outcome is Err || !bus.permits(
            self.session.unwrap(),
        )) {
            bus.step(BusEvent::Release { session: self.session.unwrap() })
        } else {
            bus
        }
    }

    /// The card once the exchange has been reported: for a handshake the
    /// capacity it found, or the driver's failure. Either way the line is
    /// deasserted next.
    pub open spec fn on_exchanged(self, outcome: Result<u64, CardReport>) -> CardState {
        if self.stage != Stage::Exchanging {
            self
        } else {
            match outcome {
                Ok(found) => CardState {
                    stage: Stage::Deselecting,
                    reported: Some(found),
                    ..self
                },
                Err(report) => CardState {
                    stage: Stage::Deselecting,
                    verdict: Some(self.report_fault(report)),
                    ..self
                },
            }
        }
    }

    /// How the operation in flight ends, when the deasserting of the line is
    /// reported with `outcome`: with the fault of the exchange if it met one,
    /// else with the fault of the deasserting, else well.
    pub open spec fn closing_result(self, outcome: Result<(), BusFault>) -> Result<(), SdError> {
        match self.verdict {
            Some(fault) => Err(fault),
            None => match outcome {
                Ok(_) => Ok(()),
                Err(fault) => Err(self.bus_fault(fault)),
            },
        }
    }

    /// The card once the deasserting of the line has been reported: the
    /// operation is over.
    pub open spec fn on_deselected(self, outcome: Result<(), BusFault>) -> CardState {
        if self.stage != Stage::Deselecting {
            self
        } else {
            self.ended(self.closing_result(outcome))
        }
    }

    /// The bus once the deasserting of the line has been reported: released.
    pub open spec fn bus_on_deselected(self, bus: BusState) -> BusState {
        if self.stage != Stage::Deselecting {
            bus
        } else {
            bus.step(BusEvent::Release { session: self.session.unwrap() })
        }
    }
}

/// Every report keeps a card well formed, and so does the beginning of an
/// operation.
pub proof fn lemma_card_steps_keep_wf(c: CardState, bus: BusState)
    requires
        c.wf(),
    ensures
        forall|op: CardOp| #[trigger] c.after_begin(bus, op).wf(),
        forall|outcome: Result<(), BusFault>| #[trigger] c.on_configured(bus, outcome).wf(),
        forall|outcome: Result<(), BusFault>| #[trigger] c.on_selected(bus, outcome).wf(),
        forall|outcome: Result<u64, CardReport>| #[trigger] c.on_exchanged(outcome).wf(),
        forall|outcome: Result<(), BusFault>| #[trigger] c.on_deselected(outcome).wf(),
{
}

/// The state of card and bus after an operation has been begun and the four
/// reports of its script have come in, in order. A report whose step was not
/// due any more, because the operation had ended early, changes nothing.
pub open spec fn after_operation(
    c: CardState,
    bus: BusState,
    op: CardOp,
    configured: Result<(), BusFault>,
    selected: Result<(), BusFault>,
    exchanged: Result<u64, CardReport>,
    deselected: Result<(), BusFault>,
) -> (CardState, BusState) {
    let c0 = c.after_begin(bus, op);
    let b0 = c.bus_after_begin(bus, op);
    let c1 = c0.on_configured(b0, configured);
    let b1 = c0.bus_on_configured(b0, configured);
    let c2 = c1.on_selected(b1, selected);
    let b2 = c1.bus_on_selected(b1, selected);
    let c3 = c2.on_exchanged(exchanged);
    let c4 = c3.on_deselected(deselected);
    let b4 = c3.bus_on_deselected(b2);
    (c4, b4)
}

/// Chip-select discipline. An operation that has been begun on a free bus
/// ends, whatever the hardware reports at each step, with the chip-select
/// line deasserted and the bus free; and its result is on record.
pub proof fn lemma_operation_releases_everything(
    c: CardState,
    bus: BusState,
    op: CardOp,
    configured: Result<(), BusFault>,
    selected: Result<(), BusFault>,
    exchanged: Result<u64, CardReport>,
    deselected: Result<(), BusFault>,
)
    requires
        c.wf(),
        bus.wf(),
        c.beginning(bus, op) is Ok,
    ensures
        ({
            let (after, bus_after) = after_operation(
                c,
                bus,
                op,
                configured,
                selected,
                exchanged,
                deselected,
            );
            &&& after.wf()
            &&& after.stage == Stage::Idle
            &&& !after.selected
            &&& after.result is Some
            &&& bus_after.holder is None
            &&& bus_after.wf()
            &&& (after.result == Some(Ok::<(), SdError>(())) <==> configured is Ok && selected
                is Ok && exchanged is Ok && deselected is Ok)
        }),
{
}

/// A bus fault during the handshake. When the controller refuses the card's
/// configuration, the handshake ends with a card-initialisation error that
/// carries the bus fault, the card stays uninitialised, the line has not been
/// asserted, and the bus is free for the next device.
pub proof fn lemma_init_bus_fault_frees_bus(c: CardState, bus: BusState, fault: BusFault)
    requires
        c.wf(),
        bus.wf(),
        c.beginning(bus, CardOp::Init) is Ok,
    ensures
        ({
            let begun = c.after_begin(bus, CardOp::Init);
            let held = c.bus_after_begin(bus, CardOp::Init);
            let after = begun.on_configured(held, Err(fault));
            let bus_after = begun.bus_on_configured(held, Err(fault));
            &&& held.holder is Some
            &&& after.result == Some(
                Err::<(), SdError>(SdError::CardInit(CardInitError::Bus(fault))),
            )
            &&& after.capacity is None
            &&& !after.selected
            &&& after.stage == Stage::Idle
            &&& bus_after.holder is None
            &&& bus_after.granted < u64::MAX ==> bus_after.can_grant()
        }),
{
}

/// The capacity is found once. It is what the handshake reported, and no
/// later operation changes it.
pub proof fn lemma_capacity_is_constant(c: CardState, bus: BusState)
    requires
        c.wf(),
        c.capacity is Some,
    ensures
        forall|op: CardOp| (#[trigger] c.after_begin(bus, op)).capacity == c.capacity,
        forall|outcome: Result<(), BusFault>|
            c.op != Some(CardOp::Init) ==> (#[trigger] c.on_configured(bus, outcome)).capacity
                == c.capacity,
        forall|outcome: Result<(), BusFault>|
            c.op != Some(CardOp::Init) ==> (#[trigger] c.on_selected(bus, outcome)).capacity
                == c.capacity,
        forall|outcome: Result<u64, CardReport>| (#[trigger] c.on_exchanged(outcome)).capacity
            == c.capacity,
        forall|outcome: Result<(), BusFault>|
            c.op != Some(CardOp::Init) ==> (#[trigger] c.on_deselected(outcome)).capacity
                == c.capacity,
        forall|op: CardOp| c.stage == Stage::Idle ==> (#[trigger] c.after_begin(bus, op)).op
            != Some(CardOp::Init),
{
}

/// One card on the shared bus.
pub struct Card {
    device: u8,
    config: BusConfig,
    capacity: Option<u64>,
    stage: Stage,
    op: Option<CardOp>,
    session: Option<BusSession>,
    selected: bool,
    reported: Option<u64>,
    verdict: Option<SdError>,
    result: Option<Result<(), SdError>>,
}

impl View for Card {
    type V = CardState;

    closed spec fn view(&self) -> CardState {
        CardState {
            device: self.device,
            config: self.config,
            capacity: self.capacity,
            stage: self.stage,
            op: self.op,
            session: self.session,
            selected: self.selected,
            reported: self.reported,
            verdict: self.verdict,
            result: self.result,
        }
    }
}

impl Card {
    #[verifier::type_invariant]
    spec fn inv(self) -> bool {
        self@.wf()
    }

    /// A card that has not been initialised, as logical device `device` with
    /// the configuration `config`.
    pub fn new(device: u8, config: BusConfig) -> (r: Card)
        ensures
            r@ == CardState::fresh(device, config),
    {
        Card {
            device,
            config,
            capacity: None,
            stage: Stage::Idle,
            op: None,
            session: None,
            selected: false,
            reported: None,
            verdict: None,
            result: None,
        }
    }

    /// The step that is due.
    pub fn next_step(&self) -> (r: CardStep)
        ensures
            r == self@.next(),
            self@.wf(),
    {
        proof {
            use_type_invariant(self);
        }
        match self.stage {
            Stage::Idle => CardStep::Nothing,
            Stage::Configuring => CardStep::Reconfigure(self.config),
            Stage::Selecting => CardStep::Select,
            Stage::Exchanging => CardStep::Exchange(self.op.unwrap()),
            Stage::Deselecting => CardStep::Deselect,
        }
    }

    /// The capacity of the card in bytes, once the handshake has found it.
    pub fn capacity(&self) -> (r: Option<u64>)
        ensures
            r == self@.capacity,
    {
        self.capacity
    }

    /// Whether the chip-select line is asserted.
    pub fn is_selected(&self) -> (r: bool)
        ensures
            r == self@.selected,
    {
        self.selected
    }

    /// Whether no operation is in flight.
    pub fn is_idle(&self) -> (r: bool)
        ensures
            r == (self@.stage == Stage::Idle),
    {
        match self.stage {
            Stage::Idle => true,
            _ => false,
        }
    }

    /// How the last operation ended, if one has ended and none has been
    /// begun since.
    pub fn last_result(&self) -> (r: Option<Result<(), SdError>>)
        ensures
            r == self@.result,
    {
        self.result
    }

    /// Begins `op` in a bus session of its own.
    ///
    /// The operation does not start while another is in flight, on a bus that
    /// is held, before the handshake where it needs an initialised card, or
    /// past the end of the card. Nothing changes then.
    pub fn begin(&mut self, arbiter: &mut Arbiter, op: CardOp) -> (r: Result<(), SdError>)
        ensures
            r == old(self)@.beginning(old(arbiter)@, op),
            final(self)@ == old(self)@.after_begin(old(arbiter)@, op),
            final(arbiter)@ == old(self)@.bus_after_begin(old(arbiter)@, op),
    {
        proof {
            use_type_invariant(&*self);
        }
        match self.stage {
            Stage::Idle => {},
            _ => {
                return Err(SdError::Usage(UsageFault::Busy));
            },
        }
        match op {
            CardOp::Init => {
                if self.capacity.is_some() {
                    return Err(SdError::Usage(UsageFault::AlreadyOpen));
                }
            },
            CardOp::ReadSector(index) | CardOp::WriteSector(index) => {
                match self.capacity {
                    None => {
                        return Err(SdError::Device(DeviceFault::NotReady));
                    },
                    Some(bytes) => {
                        let end: u64 = (index as u64 + 1) * SECTOR_BYTES;
                        if end > bytes {
                            return Err(SdError::Usage(UsageFault::BadLength));
                        }
                    },
                }
            },
        }
        match arbiter.acquire(self.device, self.config) {
            Ok(session) => {
                *self = Card {
                    device: self.device,
                    config: self.config,
                    capacity: self.capacity,
                    stage: Stage::Configuring,
                    op: Some(op),
                    session: Some(session),
                    selected: false,
                    reported: self.reported,
                    verdict: self.verdict,
                    result: None,
                };
                Ok(())
            },
            Err(fault) => Err(SdError::Usage(fault)),
        }
    }

    /// Takes the report on the reconfiguration of the controller.
    ///
    /// A report that is not due is refused and changes nothing.
    pub fn configured(&mut self, arbiter: &mut Arbiter, outcome: Result<(), BusFault>) -> (r: Result<
        (),
        UsageFault,
    >)
        ensures
            r is Ok <==> old(self)@.stage == Stage::Configuring,
            r is Err ==> r == Err::<(), UsageFault>(UsageFault::UnexpectedEvent),
            final(self)@ == old(self)@.on_configured(old(arbiter)@, outcome),
            final(arbiter)@ == old(self)@.bus_on_configured(old(arbiter)@, outcome),
    {
        proof {
            use_type_invariant(&*self);
        }
        match self.stage {
            Stage::Configuring => {},
            _ => {
                return Err(UsageFault::UnexpectedEvent);
            },
        }
        let session = self.session.unwrap();
        match arbiter.configured(&session, outcome) {
            Ok(_) => {
                *self = Card {
                    device: self.device,
                    config: self.config,
                    capacity: self.capacity,
                    stage: Stage::Selecting,
                    op: self.op,
                    session: self.session,
                    selected: false,
                    reported: self.reported,
                    verdict: self.verdict,
                    result: self.result,
                };
            },
            Err(SdError::Bus(fault)) => {
                let wrapped = self.wrap_bus(fault);
                self.end(Err(wrapped));
            },
            Err(_) => {
                self.end(Err(SdError::Usage(UsageFault::UnknownHandle)));
            },
        }
        Ok(())
    }

    /// Takes the report on the asserting of the chip-select line.
    ///
    /// A report that is not due is refused and changes nothing.
    pub fn selected(&mut self, arbiter: &mut Arbiter, outcome: Result<(), BusFault>) -> (r: Result<
        (),
        UsageFault,
    >)
        ensures
            r is Ok <==> old(self)@.stage == Stage::Selecting,
            r is Err ==> r == Err::<(), UsageFault>(UsageFault::UnexpectedEvent),
            final(self)@ == old(self)@.on_selected(old(arbiter)@, outcome),
            final(arbiter)@ == old(self)@.bus_on_selected(old(arbiter)@, outcome),
    {
        proof {
            use_type_invariant(&*self);
        }
        match self.stage {
            Stage::Selecting => {},
            _ => {
                return Err(UsageFault::UnexpectedEvent);
            },
        }
        let session = self.session.unwrap();
        match outcome {
            Ok(_) => {
                if arbiter.permits(&session) {
                    *self = Card {
                        device: self.device,
                        config: self.config,
                        capacity: self.capacity,
                        stage: Stage::Exchanging,
                        op: self.op,
                        session: self.session,
                        selected: true,
                        reported: self.reported,
                        verdict: self.verdict,
                        result: self.result,
                    };
                } else {
                    let _ = arbiter.release(&session);
                    self.end(Err(SdError::Usage(UsageFault::UnknownHandle)));
                }
            },
            Err(fault) => {
                let _ = arbiter.release(&session);
                let wrapped = self.wrap_bus(fault);
                self.end(Err(wrapped));
            },
        }
        Ok(())
    }

    /// Takes the report on the exchange with the card: for a handshake the
    /// capacity in bytes that it found, or the driver's failure.
    ///
    /// A report that is not due is refused and changes nothing.
    pub fn exchanged(&mut self, outcome: Result<u64, CardReport>) -> (r: Result<(), UsageFault>)
        ensures
            r is Ok <==> old(self)@.stage == Stage::Exchanging,
            r is Err ==> r == Err::<(), UsageFault>(UsageFault::UnexpectedEvent),
            final(self)@ == old(self)@.on_exchanged(outcome),
    {
        proof {
            use_type_invariant(&*self);
        }
        match self.stage {
            Stage::Exchanging => {},
            _ => {
                return Err(UsageFault::UnexpectedEvent);
            },
        }
        match outcome {
            Ok(found) => {
                *self = Card {
                    device: self.device,
                    config: self.config,
                    capacity: self.capacity,
                    stage: Stage::Deselecting,
                    op: self.op,
                    session: self.session,
                    selected: true,
                    reported: Some(found),
                    verdict: self.verdict,
                    result: self.result,
                };
            },
            Err(report) => {
                let fault = match self.op {
                    Some(CardOp::Init) => SdError::CardInit(CardInitError::from_report(report)),
                    _ => SdError::Device(DeviceFault::from_report(report)),
                };
                *self = Card {
                    device: self.device,
                    config: self.config,
                    capacity: self.capacity,
                    stage: Stage::Deselecting,
                    op: self.op,
                    session: self.session,
                    selected: true,
                    reported: self.reported,
                    verdict: Some(fault),
                    result: self.result,
                };
            },
        }
        Ok(())
    }

    /// Takes the report on the deasserting of the chip-select line, releases
    /// the bus and ends the operation. Its result is what comes back inside
    /// `Ok`: the fault of the exchange if it met one, else the fault of the
    /// deasserting, else success.
    ///
    /// A report that is not due is refused and changes nothing.
    pub fn deselected(&mut self, arbiter: &mut Arbiter, outcome: Result<(), BusFault>) -> (r: Result<
        Result<(), SdError>,
        UsageFault,
    >)
        ensures
            r == (if old(self)@.stage == Stage::Deselecting {
                Ok::<Result<(), SdError>, UsageFault>(old(self)@.closing_result(outcome))
            } else {
                Err(UsageFault::UnexpectedEvent)
            }),
            final(self)@ == old(self)@.on_deselected(outcome),
            final(arbiter)@ == old(self)@.bus_on_deselected(old(arbiter)@),
    {
        proof {
            use_type_invariant(&*self);
        }
        match self.stage {
            Stage::Deselecting => {},
            _ => {
                return Err(UsageFault::UnexpectedEvent);
            },
        }
        let session = self.session.unwrap();
        let _ = arbiter.release(&session);
        let result: Result<(), SdError> = match self.verdict {
            Some(fault) => Err(fault),
            None => match outcome {
                Ok(_) => Ok(()),
                Err(fault) => Err(self.wrap_bus(fault)),
            },
        };
        self.end(result);
        Ok(result)
    }

    /// A bus fault, as the fault of the operation in flight.
    fn wrap_bus(&self, fault: BusFault) -> (r: SdError)
        ensures
            r == self@.bus_fault(fault),
    {
        match self.op {
            Some(CardOp::Init) => SdError::CardInit(CardInitError::Bus(fault)),
            _ => SdError::Device(DeviceFault::Bus(fault)),
        }
    }

    /// Ends the operation in flight with `result`.
    fn end(&mut self, result: Result<(), SdError>)
        ensures
            final(self)@ == old(self)@.ended(result),
    {
        let found: Option<u64> = match (self.op, result) {
            (Some(CardOp::Init), Ok(_)) => self.reported,
            _ => self.capacity,
        };
        *self = Card {
            device: self.device,
            config: self.config,
            capacity: found,
            stage: Stage::Idle,
            op: None,
            session: None,
            selected: false,
            reported: None,
            verdict: None,
            result: Some(result),
        };
    }
}

} // verus!
