//! The host-side connection manager: find the device by its identifiers,
//! connect to it, run one session, and go back to searching after any
//! error.
use vstd::prelude::*;

use crate::config::{DISCOVERY_INTERVAL_MS, PRODUCT_ID, VENDOR_ID};

verus! {

/// Vendor and product identifier of an attached device.
#[derive(Debug, Clone, Copy, PartialEq, Eq, Structural)]
pub struct DeviceId {
    pub vendor_id: u16,
    pub product_id: u16,
}

/// Whether a device is the one the host drives.
pub open spec fn is_target(d: DeviceId) -> bool {
    d.vendor_id == VENDOR_ID && d.product_id == PRODUCT_ID
}

/// Index of the first device in `devices` that the host drives, if any.
pub fn find_device(devices: &Vec<DeviceId>) -> (r: Option<usize>)
    ensures
        match r {
            Some(i) => i < devices@.len() && is_target(devices@[i as int]) && forall|j: int|
                0 <= j < i ==> !is_target(#[trigger] devices@[j]),
            None => forall|j: int| 0 <= j < devices@.len() ==> !is_target(#[trigger] devices@[j]),
        },
{
    let mut i: usize = 0;
    while i < devices.len()
        invariant
            i <= devices@.len(),
            forall|j: int| 0 <= j < i ==> !is_target(#[trigger] devices@[j]),
        decreases devices@.len() - i,
    {
        let d = devices[i];
        if d.vendor_id == VENDOR_ID && d.product_id == PRODUCT_ID {
            return Some(i);
        }
        i = i + 1;
    }
    None
}

/// Where the connection manager stands.
#[derive(Debug, Clone, Copy, PartialEq, Eq, Structural)]
pub enum HostState {
    /// About to scan the attached devices.
    Searching,
    /// Pausing after a scan that found no device.
    Sleeping,
    /// Opening the device found and claiming its interface.
    Connecting,
    /// Running a session on the claimed interface.
    Active,
    /// The session ended cleanly; nothing more to do.
    Finished,
}

/// What the driver observed after performing the last action.
#[derive(Debug, Clone, Copy, PartialEq, Eq, Structural)]
pub enum HostEvent {
    /// A scan ended; `found` tells whether a matching device is attached.
    Scanned { found: bool },
    /// The pause between scans has passed.
    Slept,
    /// Opening, claiming and opening the endpoints ended.
    Connected { ok: bool },
    /// The session ended, cleanly or with an error.
    SessionEnded { ok: bool },
}

/// What the driver is to do next.
#[derive(Debug, Clone, Copy, PartialEq, Eq, Structural)]
pub enum HostAction {
    Scan,
    Sleep { ms: u64 },
    Connect,
    RunSession,
    Stop,
}

/// What the driver is to log for a step.
#[derive(Debug, Clone, Copy, PartialEq, Eq, Structural)]
pub enum HostNote {
    Silent,
    NotFound,
    DeviceConnected,
    ConnectFailed,
    SessionFailed,
    SessionDone,
}

/// Result of one step: the next state, the next action and the log note.
#[derive(Debug, Clone, Copy, PartialEq, Eq, Structural)]
pub struct HostStep {
    pub state: HostState,
    pub action: HostAction,
    pub note: HostNote,
}

/// The action that a state waits on.
pub open spec fn host_pending(s: HostState) -> HostAction {
    match s {
        HostState::Searching => HostAction::Scan,
        HostState::Sleeping => HostAction::Sleep { ms: DISCOVERY_INTERVAL_MS },
        HostState::Connecting => HostAction::Connect,
        HostState::Active => HostAction::RunSession,
        HostState::Finished => HostAction::Stop,
    }
}

/// Moves to state `s` and performs what it waits on.
pub open spec fn host_enter(s: HostState, note: HostNote) -> HostStep {
    HostStep { state: s, action: host_pending(s), note }
}

/// The transition table of the connection manager. An event that does not
/// answer what the state waits on changes nothing.
pub open spec fn host_next(s: HostState, e: HostEvent) -> HostStep {
    match (s, e) {
        (HostState::Searching, HostEvent::Scanned { found }) => if found {
            host_enter(HostState::Connecting, HostNote::DeviceConnected)
        } else {
            host_enter(HostState::Sleeping, HostNote::NotFound)
        },
        (HostState::Sleeping, HostEvent::Slept) => host_enter(
            HostState::Searching,
            HostNote::Silent,
        ),
        (HostState::Connecting, HostEvent::Connected { ok }) => if ok {
            host_enter(HostState::Active, HostNote::Silent)
        } else {
            host_enter(HostState::Searching, HostNote::ConnectFailed)
        },
        (HostState::Active, HostEvent::SessionEnded { ok }) => if ok {
            host_enter(HostState::Finished, HostNote::SessionDone)
        } else {
            host_enter(HostState::Searching, HostNote::SessionFailed)
        },
        _ => host_enter(s, HostNote::Silent),
    }
}

/// State reached from `s` after the events `es`, in order.
pub open spec fn host_run(s: HostState, es: Seq<HostEvent>) -> HostState
    decreases es.len(),
{
    if es.len() == 0 {
        s
    } else {
        host_run(host_next(s, es[0]).state, es.drop_first())
    }
}

/// `n` rounds of a scan that finds no device followed by the pause.
pub open spec fn misses(n: nat) -> Seq<HostEvent>
    decreases n,
{
    if n == 0 {
        Seq::empty()
    } else {
        seq![HostEvent::Scanned { found: false }, HostEvent::Slept] + misses((n - 1) as nat)
    }
}

/// While no device is attached, each scan is followed by a not-found note and
/// a pause of exactly the discovery interval, and then by another scan, for
/// as many rounds as it takes.
pub proof fn lemma_polls_while_absent(n: nat)
    ensures
        host_next(HostState::Searching, HostEvent::Scanned { found: false }) == (HostStep {
            state: HostState::Sleeping,
            action: HostAction::Sleep { ms: DISCOVERY_INTERVAL_MS },
            note: HostNote::NotFound,
        }),
        host_next(HostState::Sleeping, HostEvent::Slept).action == HostAction::Scan,
        host_run(HostState::Searching, misses(n)) == HostState::Searching,
    decreases n,
{
    if n > 0 {
        lemma_polls_while_absent((n - 1) as nat);
        let rest = misses((n - 1) as nat);
        let tail = seq![HostEvent::Slept] + rest;
        assert(misses(n).drop_first() =~= tail);
        assert(tail.drop_first() =~= rest);
        assert(misses(n)[0] == HostEvent::Scanned { found: false });
        assert(tail[0] == HostEvent::Slept);
        assert(host_run(HostState::Sleeping, tail) == host_run(HostState::Searching, rest));
    }
}

/// Once a matching device is attached, the manager, wherever it stands in
/// its search, connects after at most one pause of the discovery interval
/// and one scan.
pub proof fn lemma_discovery_bounded(s: HostState)
    requires
        s == HostState::Searching || s == HostState::Sleeping,
    ensures
        ({
            let t = if s == HostState::Sleeping {
                host_next(s, HostEvent::Slept).state
            } else {
                s
            };
            &&& s == HostState::Sleeping ==> host_pending(s) == (HostAction::Sleep {
                ms: DISCOVERY_INTERVAL_MS,
            })
            &&& t == HostState::Searching
            &&& host_pending(t) == HostAction::Scan
            &&& host_next(t, HostEvent::Scanned { found: true }).state == HostState::Connecting
            &&& host_next(t, HostEvent::Scanned { found: true }).action == HostAction::Connect
        }),
{
}

impl HostState {
    /// The action that this state waits on.
    pub fn pending_action(&self) -> (r: HostAction)
        ensures
            r == host_pending(*self),
    {
        match self {
            HostState::Searching => HostAction::Scan,
            HostState::Sleeping => HostAction::Sleep { ms: DISCOVERY_INTERVAL_MS },
            HostState::Connecting => HostAction::Connect,
            HostState::Active => HostAction::RunSession,
            HostState::Finished => HostAction::Stop,
        }
    }
}

/// Enters `state` and issues what it waits on.
fn host_enter_exec(state: HostState, note: HostNote) -> (r: HostStep)
    ensures
        r == host_enter(state, note),
{
    HostStep { state, action: state.pending_action(), note }
}

/// One step of the connection manager: from the current state and the event
/// that answered the last action, the next state, action and log note.
pub fn host_step(state: HostState, event: HostEvent) -> (r: HostStep)
    ensures
        r == host_next(state, event),
{
    match (state, event) {
        (HostState::Searching, HostEvent::Scanned { found }) => if found {
            host_enter_exec(HostState::Connecting, HostNote::DeviceConnected)
        } else {
            host_enter_exec(HostState::Sleeping, HostNote::NotFound)
        },
        (HostState::Sleeping, HostEvent::Slept) => host_enter_exec(
            HostState::Searching,
            HostNote::Silent,
        ),
        (HostState::Connecting, HostEvent::Connected { ok }) => if ok {
            host_enter_exec(HostState::Active, HostNote::Silent)
        } else {
            host_enter_exec(HostState::Searching, HostNote::ConnectFailed)
        },
        (HostState::Active, HostEvent::SessionEnded { ok }) => if ok {
            host_enter_exec(HostState::Finished, HostNote::SessionDone)
        } else {
            host_enter_exec(HostState::Searching, HostNote::SessionFailed)
        },
        _ => host_enter_exec(state, HostNote::Silent),
    }
}

} // verus!
