//! The decisions of the presence receiver loop.
//!
//! The loop belongs to the caller: it attempts a receive, hands what came of
//! it to [`receiver_step`], carries out the action it gets back, and repeats
//! until an action ends it. The receiver keeps nothing between two datagrams:
//! who has joined is not recorded, and each event is reported for itself.

use crate::codec::{
    decode, decoding, encoding, lemma_cut_encoding_rejected, lemma_round_trip, representable,
    DecodeError,
};
use crate::event::{EventKind, EventModel, PresenceEvent};
use crate::transport::{datagram_in, receipt_model, TransportFault};
use vstd::prelude::*;

verus! {

/// How long the loop rests when nothing is pending, in milliseconds: short
/// enough to answer promptly, long enough not to spin.
pub const IDLE_PAUSE_MILLIS: u64 = 10;

/// How loud an observed event is reported.
#[derive(Clone, Copy, Debug, PartialEq, Eq, Structural)]
pub enum Severity {
    /// For tracing only.
    Trace,
    /// Of general interest.
    Info,
}

/// What the loop does with the outcome of one receive attempt.
#[derive(Debug, PartialEq, Eq)]
pub enum ReceiverAction {
    /// A presence event arrived: report it, then poll again.
    Dispatch { severity: Severity, event: PresenceEvent },
    /// A datagram arrived that is no presence event: report why, drop it,
    /// then poll again.
    Discard(DecodeError),
    /// Nothing is pending: rest for so many milliseconds, then poll again.
    Pause { millis: u64 },
    /// The receive failed and the socket lives on: report the fault, then
    /// poll again.
    Skip(TransportFault),
    /// The socket will not work again: report the fault and end the loop.
    Halt(TransportFault),
}

/// The model of an action: the same, with the event as its model.
pub enum ReceiverActionModel {
    Dispatch { severity: Severity, event: EventModel },
    Discard(DecodeError),
    Pause { millis: u64 },
    Skip(TransportFault),
    Halt(TransportFault),
}

impl View for ReceiverAction {
    type V = ReceiverActionModel;

    open spec fn view(&self) -> ReceiverActionModel {
        match self {
            ReceiverAction::Dispatch { severity, event } => ReceiverActionModel::Dispatch {
                severity: *severity,
                event: event@,
            },
            ReceiverAction::Discard(error) => ReceiverActionModel::Discard(*error),
            ReceiverAction::Pause { millis } => ReceiverActionModel::Pause { millis: *millis },
            ReceiverAction::Skip(fault) => ReceiverActionModel::Skip(*fault),
            ReceiverAction::Halt(fault) => ReceiverActionModel::Halt(*fault),
        }
    }
}

/// How loud an event of a kind is reported: arrivals and departures are of
/// general interest, heartbeats are traced.
pub open spec fn severity_of(kind: EventKind) -> Severity {
    match kind {
        EventKind::KeepAlive => Severity::Trace,
        EventKind::Join => Severity::Info,
        EventKind::Leave => Severity::Info,
    }
}

/// What the loop does with a datagram: report the event it holds, or drop it.
pub open spec fn observation(datagram: Seq<u8>) -> ReceiverActionModel {
    match decoding(datagram) {
        Ok(event) => ReceiverActionModel::Dispatch { severity: severity_of(event.kind), event },
        Err(error) => ReceiverActionModel::Discard(error),
    }
}

/// What the loop does with the outcome of one receive attempt.
pub open spec fn reaction(polled: Result<Option<Seq<u8>>, TransportFault>) -> ReceiverActionModel {
    match polled {
        Ok(Some(datagram)) => observation(datagram),
        Ok(None) => ReceiverActionModel::Pause { millis: IDLE_PAUSE_MILLIS },
        Err(fault) => if fault.means_no_data() {
            ReceiverActionModel::Pause { millis: IDLE_PAUSE_MILLIS }
        } else if fault.socket_unusable() {
            ReceiverActionModel::Halt(fault)
        } else {
            ReceiverActionModel::Skip(fault)
        },
    }
}

/// The loop goes on after the action.
pub open spec fn continues(action: ReceiverActionModel) -> bool {
    !(action is Halt)
}

/// What a receiver makes of the datagrams that reach it, one action each and
/// in their order.
pub open spec fn observations(datagrams: Seq<Seq<u8>>) -> Seq<ReceiverActionModel> {
    Seq::new(datagrams.len(), |i: int| observation(datagrams[i]))
}

/// No datagram stops the loop or makes it wait, whatever it holds: it is
/// reported or dropped, and the loop polls again.
pub proof fn lemma_datagram_never_fatal(datagram: Seq<u8>)
    ensures
        continues(observation(datagram)),
        observation(datagram) is Dispatch || observation(datagram) is Discard,
        observation(datagram) is Dispatch <==> decoding(datagram) is Ok,
{
}

/// Only a fault that says so ends the loop; every other outcome of a receive
/// lets it go on.
pub proof fn lemma_halts_only_on_unusable_socket(polled: Result<Option<Seq<u8>>, TransportFault>)
    ensures
        !continues(reaction(polled)) <==> (polled matches Err(fault) && fault.socket_unusable()),
{
}

/// Loss tolerance: a datagram lost on the way changes nothing but that its own
/// event is never seen. What the receiver makes of the others, and their
/// order, is as if the lost one had never been sent.
pub proof fn lemma_loss_tolerance(datagrams: Seq<Seq<u8>>, lost: int)
    requires
        0 <= lost < datagrams.len(),
    ensures
        observations(datagrams.remove(lost)) == observations(datagrams).remove(lost),
{
    assert(observations(datagrams.remove(lost)) =~= observations(datagrams).remove(lost));
}

/// A datagram that arrives twice is reported twice, each time as if it were
/// the first: the receiver has no memory.
pub proof fn lemma_no_memory(before: Seq<Seq<u8>>, datagram: Seq<u8>)
    ensures
        observations(before.push(datagram)) == observations(before).push(observation(datagram)),
{
    assert(observations(before.push(datagram)) =~= observations(before).push(
        observation(datagram),
    ));
}

/// What is sent is what is seen: a receiver that gets an event's bytes whole
/// reports that very event, as loud as its kind asks.
pub proof fn lemma_sent_is_observed(event: EventModel)
    requires
        representable(event),
    ensures
        observation(encoding(event)) == (ReceiverActionModel::Dispatch {
            severity: severity_of(event.kind),
            event,
        }),
{
    lemma_round_trip(event);
}

/// An event that reaches the receiver cut short, as one longer than the
/// receive buffer does, is dropped as truncated and never mistaken for
/// another event.
pub proof fn lemma_cut_event_is_dropped(event: EventModel, size: usize)
    requires
        representable(event),
        size < encoding(event).len(),
    ensures
        observation(datagram_in(encoding(event), size)) == ReceiverActionModel::Discard(
            DecodeError::Truncated,
        ),
{
    lemma_cut_encoding_rejected(event, size as int);
}

/// How loud an event of a kind is reported.
pub fn severity(kind: EventKind) -> (level: Severity)
    ensures
        level == severity_of(kind),
{
    match kind {
        EventKind::KeepAlive => Severity::Trace,
        EventKind::Join => Severity::Info,
        EventKind::Leave => Severity::Info,
    }
}

/// Decides what the loop does with the outcome of one receive attempt, as
/// [`crate::transport::read_receive`] reports it.
pub fn receiver_step(polled: Result<Option<&[u8]>, TransportFault>) -> (action: ReceiverAction)
    ensures
        action@ == reaction(receipt_model(polled)),
{
    match polled {
        Ok(Some(datagram)) => match decode(datagram) {
            Ok(event) => ReceiverAction::Dispatch { severity: severity(event.kind()), event },
            Err(error) => ReceiverAction::Discard(error),
        },
        Ok(None) => ReceiverAction::Pause { millis: IDLE_PAUSE_MILLIS },
        Err(fault) => {
            if fault.is_no_data() {
                ReceiverAction::Pause { millis: IDLE_PAUSE_MILLIS }
            } else if fault.is_socket_unusable() {
                ReceiverAction::Halt(fault)
            } else {
                ReceiverAction::Skip(fault)
            }
        },
    }
}

} // verus!
