//! The device-side echo task: wait for the host to enable the endpoints, then
//! read a packet, pause, and write it back, until a read fails.
use vstd::prelude::*;

use crate::config::{ECHO_DELAY_SECS, MAX_PACKET_SIZE};

verus! {

/// Where the echo task stands.
#[derive(Debug, Clone, PartialEq, Eq)]
pub enum LinkState {
    /// Waiting for the host to enable the endpoint pair.
    WaitingForEnable,
    /// Enabled, reading the next packet.
    Connected,
    /// Holding a received packet through the echo delay.
    Delaying { data: Vec<u8> },
    /// Writing a received packet back.
    Echoing { data: Vec<u8> },
}

/// What the driver observed after performing the last action.
#[derive(Debug, Clone, PartialEq, Eq)]
pub enum LinkEvent {
    /// The endpoints became enabled.
    Enabled,
    /// A read returned these bytes.
    ReadOk { data: Vec<u8> },
    /// A read failed: the endpoint was disabled or stalled.
    ReadFailed,
    /// The echo delay has passed.
    DelayElapsed,
    /// A write finished, successfully or not.
    WriteDone { ok: bool },
}

/// What the driver is to do next.
#[derive(Debug, Clone, PartialEq, Eq)]
pub enum LinkAction {
    WaitEnabled,
    Read,
    Delay { secs: u64 },
    Write { data: Vec<u8> },
}

/// What the driver is to log for a step.
#[derive(Debug, Clone, Copy, PartialEq, Eq, Structural)]
pub enum LinkNote {
    Silent,
    Connected,
    Disconnected,
    Received,
}

/// Result of one step: the next state, the next action and the log note.
#[derive(Debug, Clone, PartialEq, Eq)]
pub struct LinkStep {
    pub state: LinkState,
    pub action: LinkAction,
    pub note: LinkNote,
}

/// Mathematical model of [`LinkState`].
pub enum LinkStateModel {
    WaitingForEnable,
    Connected,
    Delaying(Seq<u8>),
    Echoing(Seq<u8>),
}

/// Mathematical model of [`LinkEvent`].
pub enum LinkEventModel {
    Enabled,
    ReadOk(Seq<u8>),
    ReadFailed,
    DelayElapsed,
    WriteDone(bool),
}

/// Mathematical model of [`LinkAction`].
pub enum LinkActionModel {
    WaitEnabled,
    Read,
    Delay(nat),
    Write(Seq<u8>),
}

impl View for LinkState {
    type V = LinkStateModel;

    open spec fn view(&self) -> LinkStateModel {
        match self {
            LinkState::WaitingForEnable => LinkStateModel::WaitingForEnable,
            LinkState::Connected => LinkStateModel::Connected,
            LinkState::Delaying { data } => LinkStateModel::Delaying(data@),
            LinkState::Echoing { data } => LinkStateModel::Echoing(data@),
        }
    }
}

impl View for LinkEvent {
    type V = LinkEventModel;

    open spec fn view(&self) -> LinkEventModel {
        match self {
            LinkEvent::Enabled => LinkEventModel::Enabled,
            LinkEvent::ReadOk { data } => LinkEventModel::ReadOk(data@),
            LinkEvent::ReadFailed => LinkEventModel::ReadFailed,
            LinkEvent::DelayElapsed => LinkEventModel::DelayElapsed,
            LinkEvent::WriteDone { ok } => LinkEventModel::WriteDone(*ok),
        }
    }
}

impl View for LinkAction {
    type V = LinkActionModel;

    open spec fn view(&self) -> LinkActionModel {
        match self {
            LinkAction::WaitEnabled => LinkActionModel::WaitEnabled,
            LinkAction::Read => LinkActionModel::Read,
            LinkAction::Delay { secs } => LinkActionModel::Delay(*secs as nat),
            LinkAction::Write { data } => LinkActionModel::Write(data@),
        }
    }
}

impl View for LinkStep {
    type V = (LinkStateModel, LinkActionModel, LinkNote);

    open spec fn view(&self) -> (LinkStateModel, LinkActionModel, LinkNote) {
        (self.state@, self.action@, self.note)
    }
}

/// The action that a state waits on.
pub open spec fn link_pending(s: LinkStateModel) -> LinkActionModel {
    match s {
        LinkStateModel::WaitingForEnable => LinkActionModel::WaitEnabled,
        LinkStateModel::Connected => LinkActionModel::Read,
        LinkStateModel::Delaying(_) => LinkActionModel::Delay(ECHO_DELAY_SECS as nat),
        LinkStateModel::Echoing(p) => LinkActionModel::Write(p),
    }
}

/// Moves to state `s` and performs what it waits on.
pub open spec fn link_enter(
    s: LinkStateModel,
    note: LinkNote,
) -> (LinkStateModel, LinkActionModel, LinkNote) {
    (s, link_pending(s), note)
}

/// The transition table of the echo task. An event that does not answer
/// what the state waits on changes nothing, and the pending action is
/// issued again.
pub open spec fn link_next(s: LinkStateModel, e: LinkEventModel) -> (
    LinkStateModel,
    LinkActionModel,
    LinkNote,
) {
    match (s, e) {
        (LinkStateModel::WaitingForEnable, LinkEventModel::Enabled) => link_enter(
            LinkStateModel::Connected,
            LinkNote::Connected,
        ),
        (LinkStateModel::Connected, LinkEventModel::ReadOk(p)) => link_enter(
            LinkStateModel::Delaying(p),
            LinkNote::Received,
        ),
        (LinkStateModel::Connected, LinkEventModel::ReadFailed) => link_enter(
            LinkStateModel::WaitingForEnable,
            LinkNote::Disconnected,
        ),
        (LinkStateModel::Delaying(p), LinkEventModel::DelayElapsed) => link_enter(
            LinkStateModel::Echoing(p),
            LinkNote::Silent,
        ),
        (LinkStateModel::Echoing(_), LinkEventModel::WriteDone(_)) => link_enter(
            LinkStateModel::Connected,
            LinkNote::Silent,
        ),
        _ => link_enter(s, LinkNote::Silent),
    }
}

/// State reached from `s` after the events `es`, in order.
pub open spec fn link_run(s: LinkStateModel, es: Seq<LinkEventModel>) -> LinkStateModel
    decreases es.len(),
{
    if es.len() == 0 {
        s
    } else {
        link_run(link_next(s, es[0]).0, es.drop_first())
    }
}

/// `n` rounds of the host disabling the endpoints (seen as a failed read)
/// and enabling them again.
pub open spec fn reconnections(n: nat) -> Seq<LinkEventModel>
    decreases n,
{
    if n == 0 {
        Seq::empty()
    } else {
        seq![LinkEventModel::ReadFailed, LinkEventModel::Enabled] + reconnections((n - 1) as nat)
    }
}

/// A packet of at most one maximum packet size received while connected is
/// held through a delay of exactly the echo delay and then written back
/// byte for byte; whether that write succeeds or not, the task reads again.
pub proof fn lemma_echo_is_exact(p: Seq<u8>, write_ok: bool)
    requires
        p.len() <= MAX_PACKET_SIZE,
    ensures
        ({
            let s1 = link_next(LinkStateModel::Connected, LinkEventModel::ReadOk(p));
            let s2 = link_next(s1.0, LinkEventModel::DelayElapsed);
            let s3 = link_next(s2.0, LinkEventModel::WriteDone(write_ok));
            &&& s1.1 == LinkActionModel::Delay(ECHO_DELAY_SECS as nat)
            &&& s2.1 == LinkActionModel::Write(p)
            &&& s3.0 == LinkStateModel::Connected
            &&& s3.1 == LinkActionModel::Read
        }),
{
}

/// A failed read in a session ends it, with a disconnect note, in the state
/// that waits for enablement; enablement then reconnects, with a connect
/// note. However many times this repeats, the task is connected again.
pub proof fn lemma_reconnect_idempotent(n: nat)
    ensures
        link_next(LinkStateModel::Connected, LinkEventModel::ReadFailed) == link_enter(
            LinkStateModel::WaitingForEnable,
            LinkNote::Disconnected,
        ),
        link_next(LinkStateModel::WaitingForEnable, LinkEventModel::Enabled) == link_enter(
            LinkStateModel::Connected,
            LinkNote::Connected,
        ),
        link_run(LinkStateModel::Connected, reconnections(n)) == LinkStateModel::Connected,
    decreases n,
{
    if n > 0 {
        lemma_reconnect_idempotent((n - 1) as nat);
        let rest = reconnections((n - 1) as nat);
        let es = reconnections(n);
        let tail = seq![LinkEventModel::Enabled] + rest;
        assert(es.drop_first() =~= tail);
        assert(tail.drop_first() =~= rest);
        assert(link_run(LinkStateModel::WaitingForEnable, tail) == link_run(
            LinkStateModel::Connected,
            rest,
        ));
    }
}

/// Copies a byte buffer.
fn copy_bytes(v: &Vec<u8>) -> (r: Vec<u8>)
    ensures
        r@ == v@,
{
    let mut r: Vec<u8> = Vec::with_capacity(v.len());
    let mut i: usize = 0;
    while i < v.len()
        invariant
            i <= v@.len(),
            r@ == v@.subrange(0, i as int),
        decreases v@.len() - i,
    {
        r.push(v[i]);
        i = i + 1;
        assert(r@ =~= v@.subrange(0, i as int));
    }
    assert(v@.subrange(0, v@.len() as int) =~= v@);
    r
}

impl LinkState {
    /// The action that this state waits on.
    pub fn pending_action(&self) -> (r: LinkAction)
        ensures
            r@ == link_pending(self@),
    {
        match self {
            LinkState::WaitingForEnable => LinkAction::WaitEnabled,
            LinkState::Connected => LinkAction::Read,
            LinkState::Delaying { .. } => LinkAction::Delay { secs: ECHO_DELAY_SECS },
            LinkState::Echoing { data } => LinkAction::Write { data: copy_bytes(data) },
        }
    }
}

/// Enters `state` and issues what it waits on.
fn enter(state: LinkState, note: LinkNote) -> (r: LinkStep)
    ensures
        r@ == link_enter(state@, note),
{
    let action = state.pending_action();
    LinkStep { state, action, note }
}

/// One step of the echo task: from the current state and the event that
/// answered the last action, the next state, action and log note.
pub fn link_step(state: LinkState, event: LinkEvent) -> (r: LinkStep)
    ensures
        r@ == link_next(state@, event@),
{
    match (state, event) {
        (LinkState::WaitingForEnable, LinkEvent::Enabled) => enter(
            LinkState::Connected,
            LinkNote::Connected,
        ),
        (LinkState::Connected, LinkEvent::ReadOk { data }) => enter(
            LinkState::Delaying { data },
            LinkNote::Received,
        ),
        (LinkState::Connected, LinkEvent::ReadFailed) => enter(
            LinkState::WaitingForEnable,
            LinkNote::Disconnected,
        ),
        (LinkState::Delaying { data }, LinkEvent::DelayElapsed) => enter(
            LinkState::Echoing { data },
            LinkNote::Silent,
        ),
        (LinkState::Echoing { .. }, LinkEvent::WriteDone { .. }) => enter(
            LinkState::Connected,
            LinkNote::Silent,
        ),
        (s, _) => enter(s, LinkNote::Silent),
    }
}

} // verus!
