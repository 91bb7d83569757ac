//! The decisions of the two senders: the join announcer and the heartbeat
//! emitter.
//!
//! Each is a function from what just happened to what to do next. The caller
//! owns the socket and the clock: it starts a sender with
//! [`SenderEvent::Started`], carries out each action, and reports its outcome
//! as the next event, until an action ends the sender.
//!
//! # When a send fails
//!
//! A failed send is fatal. The sender answers it with
//! [`SenderAction::Abort`] and the fault, and the caller is to report the
//! fault and end the whole process, not only the sender: a process that
//! listens on without heartbeats looks departed to its peers, and nothing
//! would tell its user. There is no retry, no backoff and no skipped beat.

use crate::codec::{encode, encoding, representable};
use crate::event::{EventKind, EventModel, PresenceEvent};
use crate::transport::TransportFault;
use vstd::prelude::*;

verus! {

/// The time between two heartbeats, in seconds.
pub const HEARTBEAT_INTERVAL_SECS: u64 = 1;

/// What the caller reports to a sender.
#[derive(Clone, Copy, Debug, PartialEq, Eq, Structural)]
pub enum SenderEvent {
    /// The sender starts.
    Started,
    /// The datagram of the last action went out.
    Sent,
    /// The datagram of the last action did not go out.
    SendFailed(TransportFault),
    /// The rest of the last action is over.
    Rested,
}

/// What a sender has the caller do next.
#[derive(Debug, PartialEq, Eq)]
pub enum SenderAction {
    /// Send these bytes to the destination as one datagram.
    Send(Vec<u8>),
    /// Sleep for so many seconds.
    Rest { secs: u64 },
    /// The sender is done.
    Finish,
    /// The sender cannot go on: report the fault and end the process.
    Abort(TransportFault),
}

/// The model of an action: the same, with the datagram as a sequence.
pub enum SenderActionModel {
    Send(Seq<u8>),
    Rest { secs: u64 },
    Finish,
    Abort(TransportFault),
}

impl View for SenderAction {
    type V = SenderActionModel;

    open spec fn view(&self) -> SenderActionModel {
        match self {
            SenderAction::Send(datagram) => SenderActionModel::Send(datagram@),
            SenderAction::Rest { secs } => SenderActionModel::Rest { secs: *secs },
            SenderAction::Finish => SenderActionModel::Finish,
            SenderAction::Abort(fault) => SenderActionModel::Abort(*fault),
        }
    }
}

/// The event by which a process announces its arrival.
pub open spec fn join_of(self_id: Seq<char>) -> EventModel {
    EventModel { kind: EventKind::Join, peer_id: self_id }
}

/// The event by which a process shows that it is alive.
pub open spec fn keep_alive_of(self_id: Seq<char>) -> EventModel {
    EventModel { kind: EventKind::KeepAlive, peer_id: self_id }
}

/// The join announcer: one `Join`, sent once, and then it is done.
pub open spec fn announcer_reaction(self_id: Seq<char>, event: SenderEvent) -> SenderActionModel {
    match event {
        SenderEvent::Started => SenderActionModel::Send(encoding(join_of(self_id))),
        SenderEvent::Sent => SenderActionModel::Finish,
        SenderEvent::SendFailed(fault) => SenderActionModel::Abort(fault),
        SenderEvent::Rested => SenderActionModel::Finish,
    }
}

/// The heartbeat emitter: a `KeepAlive` at the start and after every rest, and
/// a rest of one interval after every `KeepAlive` that went out.
pub open spec fn heartbeat_reaction(self_id: Seq<char>, event: SenderEvent) -> SenderActionModel {
    match event {
        SenderEvent::Started => SenderActionModel::Send(encoding(keep_alive_of(self_id))),
        SenderEvent::Sent => SenderActionModel::Rest { secs: HEARTBEAT_INTERVAL_SECS },
        SenderEvent::SendFailed(fault) => SenderActionModel::Abort(fault),
        SenderEvent::Rested => SenderActionModel::Send(encoding(keep_alive_of(self_id))),
    }
}

/// A sender as a function from what happened to what to do next.
pub type Sender = spec_fn(SenderEvent) -> SenderActionModel;

/// The join announcer of `self_id`.
pub open spec fn announcer(self_id: Seq<char>) -> Sender {
    |event: SenderEvent| announcer_reaction(self_id, event)
}

/// The heartbeat emitter of `self_id`.
pub open spec fn emitter(self_id: Seq<char>) -> Sender {
    |event: SenderEvent| heartbeat_reaction(self_id, event)
}

/// What a caller reports after an action when every send goes through, or
/// `None` where the action ends the sender.
pub open spec fn completion(action: SenderActionModel) -> Option<SenderEvent> {
    match action {
        SenderActionModel::Send(_) => Some(SenderEvent::Sent),
        SenderActionModel::Rest { .. } => Some(SenderEvent::Rested),
        SenderActionModel::Finish => None,
        SenderActionModel::Abort(_) => None,
    }
}

/// The event that brings about the action numbered `step`, counted from 0, in
/// the run of a sender all of whose sends go through, or `None` once the
/// sender has ended.
pub open spec fn event_at(sender: Sender, step: nat) -> Option<SenderEvent>
    decreases step,
{
    if step == 0 {
        Some(SenderEvent::Started)
    } else {
        match event_at(sender, (step - 1) as nat) {
            Some(event) => completion(sender(event)),
            None => None,
        }
    }
}

/// The action numbered `step` in that run, or `None` once the sender has
/// ended.
pub open spec fn action_at(sender: Sender, step: nat) -> Option<SenderActionModel> {
    match event_at(sender, step) {
        Some(event) => Some(sender(event)),
        None => None,
    }
}

/// The seconds that an action takes on a clock that only rests move.
pub open spec fn duration(action: Option<SenderActionModel>) -> nat {
    match action {
        Some(SenderActionModel::Rest { secs }) => secs as nat,
        _ => 0,
    }
}

/// The time on that clock at which the action numbered `step` begins.
pub open spec fn clock_at(sender: Sender, step: nat) -> nat
    decreases step,
{
    if step == 0 {
        0
    } else {
        clock_at(sender, (step - 1) as nat) + duration(action_at(sender, (step - 1) as nat))
    }
}

/// Cadence: while its sends go through, the emitter sends and rests in turn
/// and never ends. Every send is the `KeepAlive` of the process, every rest is
/// one interval long, and the send numbered `beat` begins `beat` intervals
/// after the first: one heartbeat for each interval gone by, and none in
/// between.
pub proof fn lemma_heartbeat_cadence(self_id: Seq<char>, beat: nat)
    ensures
        action_at(emitter(self_id), 2 * beat) == Some(
            SenderActionModel::Send(encoding(keep_alive_of(self_id))),
        ),
        action_at(emitter(self_id), 2 * beat + 1) == Some(
            SenderActionModel::Rest { secs: HEARTBEAT_INTERVAL_SECS },
        ),
        clock_at(emitter(self_id), 2 * beat) == beat * HEARTBEAT_INTERVAL_SECS,
        clock_at(emitter(self_id), 2 * beat + 1) == beat * HEARTBEAT_INTERVAL_SECS,
    decreases beat,
{
    let sender = emitter(self_id);
    if beat > 0 {
        lemma_heartbeat_cadence(self_id, (beat - 1) as nat);
        let rested = (2 * (beat - 1) + 1) as nat;
        assert(event_at(sender, rested) == Some(SenderEvent::Sent));
        assert(event_at(sender, rested + 1) == Some(SenderEvent::Rested));
        assert(clock_at(sender, rested + 1) == clock_at(sender, rested) + duration(
            action_at(sender, rested),
        ));
    }
    assert(event_at(sender, 2 * beat) is Some);
    assert(event_at(sender, 2 * beat + 1) == Some(SenderEvent::Sent));
    assert(clock_at(sender, 2 * beat + 1) == clock_at(sender, 2 * beat) + duration(
        action_at(sender, 2 * beat),
    ));
}

/// The announcer sends exactly once: where the send goes through, its run is
/// the `Join` of the process, then the end, and nothing after that.
pub proof fn lemma_announcer_sends_once(self_id: Seq<char>, step: nat)
    ensures
        action_at(announcer(self_id), 0) == Some(
            SenderActionModel::Send(encoding(join_of(self_id))),
        ),
        action_at(announcer(self_id), 1) == Some(SenderActionModel::Finish),
        step >= 2 ==> action_at(announcer(self_id), step) is None,
    decreases step,
{
    let sender = announcer(self_id);
    assert(event_at(sender, 0) == Some(SenderEvent::Started));
    assert(event_at(sender, 1) == Some(SenderEvent::Sent));
    assert(event_at(sender, 2) is None);
    if step > 2 {
        lemma_announcer_sends_once(self_id, (step - 1) as nat);
    }
}

/// Whatever it is told, the announcer asks for no datagram but the `Join` of
/// the process, and the emitter for none but its `KeepAlive`.
pub proof fn lemma_senders_send_their_own_event(self_id: Seq<char>, event: SenderEvent)
    ensures
        announcer_reaction(self_id, event) matches SenderActionModel::Send(datagram)
            ==> datagram == encoding(join_of(self_id)),
        heartbeat_reaction(self_id, event) matches SenderActionModel::Send(datagram)
            ==> datagram == encoding(keep_alive_of(self_id)),
{
}

/// A failed send ends either sender at once, with the fault that failed it.
pub proof fn lemma_send_failure_is_fatal(self_id: Seq<char>, fault: TransportFault)
    ensures
        announcer_reaction(self_id, SenderEvent::SendFailed(fault)) == SenderActionModel::Abort(
            fault,
        ),
        heartbeat_reaction(self_id, SenderEvent::SendFailed(fault)) == SenderActionModel::Abort(
            fault,
        ),
{
}

/// The datagram that announces the arrival of `self_id`.
pub fn join_announcement(self_id: &str) -> (datagram: Vec<u8>)
    ensures
        datagram@ == encoding(join_of(self_id@)),
        representable(join_of(self_id@)),
{
    let event = PresenceEvent::new(EventKind::Join, self_id.to_owned());
    encode(&event)
}

/// The datagram that shows `self_id` to be alive.
pub fn heartbeat(self_id: &str) -> (datagram: Vec<u8>)
    ensures
        datagram@ == encoding(keep_alive_of(self_id@)),
        representable(keep_alive_of(self_id@)),
{
    let event = PresenceEvent::new(EventKind::KeepAlive, self_id.to_owned());
    encode(&event)
}

/// Decides the next action of the join announcer of `self_id`. What it has
/// sent can be read back.
pub fn announcer_step(self_id: &str, event: SenderEvent) -> (action: SenderAction)
    ensures
        action@ == announcer_reaction(self_id@, event),
        action is Send ==> representable(join_of(self_id@)),
{
    match event {
        SenderEvent::Started => SenderAction::Send(join_announcement(self_id)),
        SenderEvent::Sent => SenderAction::Finish,
        SenderEvent::SendFailed(fault) => SenderAction::Abort(fault),
        SenderEvent::Rested => SenderAction::Finish,
    }
}

/// Decides the next action of the heartbeat emitter of `self_id`. What it
/// has sent can be read back.
pub fn heartbeat_step(self_id: &str, event: SenderEvent) -> (action: SenderAction)
    ensures
        action@ == heartbeat_reaction(self_id@, event),
        action is Send ==> representable(keep_alive_of(self_id@)),
{
    match event {
        SenderEvent::Started => SenderAction::Send(heartbeat(self_id)),
        SenderEvent::Sent => SenderAction::Rest { secs: HEARTBEAT_INTERVAL_SECS },
        SenderEvent::SendFailed(fault) => SenderAction::Abort(fault),
        SenderEvent::Rested => SenderAction::Send(heartbeat(self_id)),
    }
}

} // verus!
