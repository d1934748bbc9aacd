//! The host-side transfer pump: a bounded number of cycles, each sending one
//! payload and waiting for one echo, with one inbound buffer kept submitted.
use vstd::prelude::*;

use crate::config::{IN_BUFFER_SIZE, TRANSFER_TIMEOUT_MS};
use crate::host::{host_next, HostAction, HostEvent, HostNote, HostState, HostStep};
use crate::payload::{payload_for, payload_spec};

verus! {

/// Name for whether bytes are valid UTF-8, as `std::str::from_utf8` decides.
pub uninterp spec fn utf8_valid(b: Seq<u8>) -> bool;

/// Relies on `std::str::from_utf8`: it succeeds exactly on valid UTF-8.
#[verifier::external_body]
fn is_utf8(b: &[u8]) -> (r: bool)
    ensures
        r == utf8_valid(b@),
{
    std::str::from_utf8(b).is_ok()
}

/// Where the pump stands within its session.
#[derive(Debug, Clone, Copy, PartialEq, Eq, Structural)]
pub enum PumpPhase {
    /// Submitting the inbound buffer before the first cycle.
    Priming,
    /// Submitting the payload of the current cycle.
    Sending,
    /// Waiting for the outbound transfer to complete.
    AwaitingOut,
    /// Waiting for the inbound transfer to complete.
    AwaitingIn,
    /// Submitting the inbound buffer again after it came back.
    Resubmitting,
    /// All cycles ran; the session ends cleanly.
    Done,
    /// A transfer failed; the session ends with an error.
    Failed,
}

/// What the driver observed after performing the last action.
#[derive(Debug, Clone, Copy, PartialEq, Eq, Structural)]
pub enum PumpEvent {
    /// A buffer was handed to the transport.
    Submitted,
    /// The outbound transfer completed with a good or an error status.
    OutCompleted { ok: bool },
    /// The inbound transfer completed; `text` tells whether its bytes are
    /// valid text.
    InCompleted { ok: bool, text: bool },
    /// The wait ran out before a completion.
    TimedOut,
}

/// What the driver is to do next.
#[derive(Debug, Clone, PartialEq, Eq)]
pub enum PumpAction {
    /// Allocate an inbound buffer of `len` bytes and submit it.
    SubmitIn { len: usize },
    /// Submit these bytes on the OUT endpoint.
    SubmitOut { data: Vec<u8> },
    /// Wait for the next OUT completion, at most this long.
    WaitOut { timeout_ms: u64 },
    /// Wait for the next IN completion, at most this long.
    WaitIn { timeout_ms: u64 },
    /// Submit the inbound buffer that just came back.
    ResubmitIn,
    /// End the session cleanly.
    Finish,
    /// End the session with an error.
    Fail,
}

/// Mathematical model of [`PumpAction`].
pub enum PumpActionModel {
    SubmitIn(nat),
    SubmitOut(Seq<u8>),
    WaitOut(nat),
    WaitIn(nat),
    ResubmitIn,
    Finish,
    Fail,
}

impl View for PumpAction {
    type V = PumpActionModel;

    open spec fn view(&self) -> PumpActionModel {
        match self {
            PumpAction::SubmitIn { len } => PumpActionModel::SubmitIn(*len as nat),
            PumpAction::SubmitOut { data } => PumpActionModel::SubmitOut(data@),
            PumpAction::WaitOut { timeout_ms } => PumpActionModel::WaitOut(*timeout_ms as nat),
            PumpAction::WaitIn { timeout_ms } => PumpActionModel::WaitIn(*timeout_ms as nat),
            PumpAction::ResubmitIn => PumpActionModel::ResubmitIn,
            PumpAction::Finish => PumpActionModel::Finish,
            PumpAction::Fail => PumpActionModel::Fail,
        }
    }
}

/// What the driver is to log for a step.
#[derive(Debug, Clone, Copy, PartialEq, Eq, Structural)]
pub enum PumpNote {
    Silent,
    OutTimeout,
    InTimeout,
    Received,
    TransferFailed,
}

/// State of the pump: the current cycle out of `cycles`, the phase, and how
/// many inbound buffers the transport holds.
#[derive(Debug, Clone, Copy, PartialEq, Eq, Structural)]
pub struct TransferPump {
    pub cycle: u64,
    pub cycles: u64,
    pub phase: PumpPhase,
    pub in_flight: u64,
}

impl TransferPump {
    /// The consistent states: the inbound buffer is with the transport in
    /// every phase of a running cycle and with the application exactly while
    /// it is being submitted.
    pub open spec fn wf(&self) -> bool {
        &&& self.cycle <= self.cycles
        &&& match self.phase {
            PumpPhase::Priming => self.in_flight == 0 && self.cycle == 0,
            PumpPhase::Sending | PumpPhase::AwaitingOut | PumpPhase::AwaitingIn => self.in_flight
                == 1 && self.cycle < self.cycles,
            PumpPhase::Resubmitting => self.in_flight == 0 && self.cycle < self.cycles,
            PumpPhase::Done => self.in_flight == 1 && self.cycle == self.cycles,
            PumpPhase::Failed => self.in_flight <= 1,
        }
    }

    /// A pump about to prime its inbound buffer for a session of `cycles`
    /// cycles.
    pub fn new(cycles: u64) -> (r: TransferPump)
        ensures
            r.wf(),
            r == (TransferPump { cycle: 0, cycles, phase: PumpPhase::Priming, in_flight: 0 }),
    {
        TransferPump { cycle: 0, cycles, phase: PumpPhase::Priming, in_flight: 0 }
    }
}

/// The action that a state waits on.
pub open spec fn pump_pending(s: TransferPump) -> PumpActionModel {
    match s.phase {
        PumpPhase::Priming => PumpActionModel::SubmitIn(IN_BUFFER_SIZE as nat),
        PumpPhase::Sending => PumpActionModel::SubmitOut(payload_spec(s.cycle as nat)),
        PumpPhase::AwaitingOut => PumpActionModel::WaitOut(TRANSFER_TIMEOUT_MS as nat),
        PumpPhase::AwaitingIn => PumpActionModel::WaitIn(TRANSFER_TIMEOUT_MS as nat),
        PumpPhase::Resubmitting => PumpActionModel::ResubmitIn,
        PumpPhase::Done => PumpActionModel::Finish,
        PumpPhase::Failed => PumpActionModel::Fail,
    }
}

/// Moves to state `s` and performs what it waits on.
pub open spec fn pump_enter(s: TransferPump, note: PumpNote) -> (
    TransferPump,
    PumpActionModel,
    PumpNote,
) {
    (s, pump_pending(s), note)
}

/// Starts cycle `c`, or ends the session cleanly when all cycles ran.
pub open spec fn begin_cycle(s: TransferPump, c: int, in_flight: int, note: PumpNote) -> (
    TransferPump,
    PumpActionModel,
    PumpNote,
) {
    let phase = if c >= s.cycles {
        PumpPhase::Done
    } else {
        PumpPhase::Sending
    };
    pump_enter(TransferPump { cycle: c as u64, phase, in_flight: in_flight as u64, ..s }, note)
}

/// The transition table of the pump. An event that does not answer what
/// the state waits on changes nothing.
pub open spec fn pump_next(s: TransferPump, e: PumpEvent) -> (
    TransferPump,
    PumpActionModel,
    PumpNote,
) {
    match (s.phase, e) {
        (PumpPhase::Priming, PumpEvent::Submitted) => begin_cycle(
            s,
            0,
            s.in_flight + 1,
            PumpNote::Silent,
        ),
        (PumpPhase::Sending, PumpEvent::Submitted) => pump_enter(
            TransferPump { phase: PumpPhase::AwaitingOut, ..s },
            PumpNote::Silent,
        ),
        (PumpPhase::AwaitingOut, PumpEvent::OutCompleted { ok }) => if ok {
            pump_enter(TransferPump { phase: PumpPhase::AwaitingIn, ..s }, PumpNote::Silent)
        } else {
            pump_enter(TransferPump { phase: PumpPhase::Failed, ..s }, PumpNote::TransferFailed)
        },
        (PumpPhase::AwaitingOut, PumpEvent::TimedOut) => pump_enter(
            TransferPump { phase: PumpPhase::AwaitingIn, ..s },
            PumpNote::OutTimeout,
        ),
        (PumpPhase::AwaitingIn, PumpEvent::InCompleted { ok, text }) => if ok && text {
            pump_enter(
                TransferPump { phase: PumpPhase::Resubmitting, in_flight: (s.in_flight - 1) as u64, ..s },
                PumpNote::Received,
            )
        } else {
            pump_enter(
                TransferPump { phase: PumpPhase::Failed, in_flight: (s.in_flight - 1) as u64, ..s },
                PumpNote::TransferFailed,
            )
        },
        (PumpPhase::AwaitingIn, PumpEvent::TimedOut) => begin_cycle(
            s,
            s.cycle + 1,
            s.in_flight as int,
            PumpNote::InTimeout,
        ),
        (PumpPhase::Resubmitting, PumpEvent::Submitted) => begin_cycle(
            s,
            s.cycle + 1,
            s.in_flight + 1,
            PumpNote::Silent,
        ),
        _ => pump_enter(s, PumpNote::Silent),
    }
}

/// The event that an inbound completion gives: its status, and for a good
/// status whether its bytes are valid text.
pub fn inbound_event(ok: bool, data: &Vec<u8>) -> (r: PumpEvent)
    ensures
        r == (PumpEvent::InCompleted { ok, text: ok && utf8_valid(data@) }),
{
    if ok {
        PumpEvent::InCompleted { ok, text: is_utf8(data.as_slice()) }
    } else {
        PumpEvent::InCompleted { ok, text: false }
    }
}

impl TransferPump {
    /// The action that this state waits on.
    pub fn pending_action(&self) -> (r: PumpAction)
        ensures
            r@ == pump_pending(*self),
    {
        match self.phase {
            PumpPhase::Priming => PumpAction::SubmitIn { len: IN_BUFFER_SIZE },
            PumpPhase::Sending => PumpAction::SubmitOut { data: payload_for(self.cycle) },
            PumpPhase::AwaitingOut => PumpAction::WaitOut { timeout_ms: TRANSFER_TIMEOUT_MS },
            PumpPhase::AwaitingIn => PumpAction::WaitIn { timeout_ms: TRANSFER_TIMEOUT_MS },
            PumpPhase::Resubmitting => PumpAction::ResubmitIn,
            PumpPhase::Done => PumpAction::Finish,
            PumpPhase::Failed => PumpAction::Fail,
        }
    }

    /// Moves to `next` and returns what it waits on with the log note.
    fn enter(&mut self, next: TransferPump, note: PumpNote) -> (r: (PumpAction, PumpNote))
        ensures
            (*final(self), r.0@, r.1) == pump_enter(next, note),
    {
        *self = next;
        (self.pending_action(), note)
    }

    /// Starts cycle `c`, or ends the session when all cycles ran.
    fn begin(&mut self, c: u64, in_flight: u64, note: PumpNote) -> (r: (PumpAction, PumpNote))
        ensures
            (*final(self), r.0@, r.1) == begin_cycle(*old(self), c as int, in_flight as int, note),
    {
        let phase = if c >= self.cycles {
            PumpPhase::Done
        } else {
            PumpPhase::Sending
        };
        let next = TransferPump { cycle: c, phase, in_flight, ..*self };
        self.enter(next, note)
    }

    /// One step of the pump: from the event that answered the last action,
    /// the next state, the next action and the log note.
    pub fn step(&mut self, event: PumpEvent) -> (r: (PumpAction, PumpNote))
        requires
            old(self).wf(),
        ensures
            final(self).wf(),
            (*final(self), r.0@, r.1) == pump_next(*old(self), event),
    {
        let s = *self;
        match (s.phase, event) {
            (PumpPhase::Priming, PumpEvent::Submitted) => self.begin(0, s.in_flight + 1, PumpNote::Silent),
            (PumpPhase::Sending, PumpEvent::Submitted) => self.enter(
                TransferPump { phase: PumpPhase::AwaitingOut, ..s },
                PumpNote::Silent,
            ),
            (PumpPhase::AwaitingOut, PumpEvent::OutCompleted { ok }) => if ok {
                self.enter(TransferPump { phase: PumpPhase::AwaitingIn, ..s }, PumpNote::Silent)
            } else {
                self.enter(TransferPump { phase: PumpPhase::Failed, ..s }, PumpNote::TransferFailed)
            },
            (PumpPhase::AwaitingOut, PumpEvent::TimedOut) => self.enter(
                TransferPump { phase: PumpPhase::AwaitingIn, ..s },
                PumpNote::OutTimeout,
            ),
            (PumpPhase::AwaitingIn, PumpEvent::InCompleted { ok, text }) => if ok && text {
                self.enter(
                    TransferPump { phase: PumpPhase::Resubmitting, in_flight: s.in_flight - 1, ..s },
                    PumpNote::Received,
                )
            } else {
                self.enter(
                    TransferPump { phase: PumpPhase::Failed, in_flight: s.in_flight - 1, ..s },
                    PumpNote::TransferFailed,
                )
            },
            (PumpPhase::AwaitingIn, PumpEvent::TimedOut) => self.begin(
                s.cycle + 1,
                s.in_flight,
                PumpNote::InTimeout,
            ),
            (PumpPhase::Resubmitting, PumpEvent::Submitted) => self.begin(
                s.cycle + 1,
                s.in_flight + 1,
                PumpNote::Silent,
            ),
            _ => self.enter(s, PumpNote::Silent),
        }
    }
}


/// Whether a phase belongs to a running cycle.
pub open spec fn steady(p: PumpPhase) -> bool {
    p == PumpPhase::Sending || p == PumpPhase::AwaitingOut || p == PumpPhase::AwaitingIn
}

/// Exactly one inbound buffer is with the transport in every phase of a
/// running cycle, whatever event comes: the buffer is submitted only while
/// the application holds it, a good completion is followed at once by its
/// resubmission, and a timed-out wait leaves the pending submission in place.
pub proof fn lemma_one_inbound_outstanding(s: TransferPump, e: PumpEvent)
    requires
        s.wf(),
    ensures
        ({
            let n = pump_next(s, e);
            &&& n.0.wf()
            &&& steady(n.0.phase) ==> n.0.in_flight == 1
            &&& (n.1 is SubmitIn || n.1 is ResubmitIn) ==> n.0.in_flight == 0
            &&& (s.phase == PumpPhase::AwaitingIn && e == (PumpEvent::InCompleted {
                ok: true,
                text: true,
            })) ==> n.1 == PumpActionModel::ResubmitIn
            &&& (s.phase == PumpPhase::AwaitingIn && e == PumpEvent::TimedOut) ==> n.0.in_flight
                == s.in_flight
        }),
{
}

/// A timed-out wait is logged and the session goes on: an outbound timeout
/// moves on to the inbound wait, an inbound timeout to the next cycle.
pub proof fn lemma_timeouts_not_fatal(s: TransferPump)
    requires
        s.wf(),
    ensures
        s.phase == PumpPhase::AwaitingOut ==> pump_next(s, PumpEvent::TimedOut) == pump_enter(
            TransferPump { phase: PumpPhase::AwaitingIn, ..s },
            PumpNote::OutTimeout,
        ),
        s.phase == PumpPhase::AwaitingIn ==> pump_next(s, PumpEvent::TimedOut) == begin_cycle(
            s,
            s.cycle + 1,
            s.in_flight as int,
            PumpNote::InTimeout,
        ),
        steady(s.phase) ==> pump_next(s, PumpEvent::TimedOut).0.phase != PumpPhase::Failed,
{
}

/// A transfer that completes with an error status ends the session at once
/// with an error, and the connection manager then goes back to discovery
/// rather than reusing the open device.
pub proof fn lemma_error_abandons_session(s: TransferPump, text: bool)
    requires
        s.wf(),
    ensures
        s.phase == PumpPhase::AwaitingOut ==> pump_next(s, PumpEvent::OutCompleted { ok: false }).1
            == PumpActionModel::Fail,
        s.phase == PumpPhase::AwaitingIn ==> pump_next(
            s,
            PumpEvent::InCompleted { ok: false, text },
        ).1 == PumpActionModel::Fail,
        host_next(HostState::Active, HostEvent::SessionEnded { ok: false }) == (HostStep {
            state: HostState::Searching,
            action: HostAction::Scan,
            note: HostNote::SessionFailed,
        }),
{
}

} // verus!
