//! Presence events and their mathematical model.

use vstd::prelude::*;
use vstd::std_specs::cmp::PartialEqSpecImpl;

verus! {

/// Which of the three announcements an event makes.
#[derive(Clone, Copy, Debug, PartialEq, Eq, Structural)]
pub enum EventKind {
    /// A liveness beacon.
    KeepAlive,
    /// An arrival.
    Join,
    /// A departure.
    Leave,
}

/// A typed announcement about one peer.
///
/// The identifier is whatever the announcing process calls itself. Nothing
/// makes identifiers unique, and two processes may share one.
#[derive(Debug)]
pub enum PresenceEvent {
    /// The peer is still there.
    KeepAlive(String),
    /// The peer has arrived.
    Join(String),
    /// The peer is leaving.
    Leave(String),
}

/// What an event is, apart from how it is stored: a kind and the identifier's
/// characters.
pub struct EventModel {
    pub kind: EventKind,
    pub peer_id: Seq<char>,
}

impl EventModel {
    /// An event names its peer: the identifier is not empty.
    pub open spec fn well_formed(self) -> bool {
        self.peer_id.len() > 0
    }
}

impl View for PresenceEvent {
    type V = EventModel;

    open spec fn view(&self) -> EventModel {
        match self {
            PresenceEvent::KeepAlive(id) => EventModel { kind: EventKind::KeepAlive, peer_id: id@ },
            PresenceEvent::Join(id) => EventModel { kind: EventKind::Join, peer_id: id@ },
            PresenceEvent::Leave(id) => EventModel { kind: EventKind::Leave, peer_id: id@ },
        }
    }
}

impl PresenceEvent {
    /// The event of the given kind about the given peer.
    pub fn new(kind: EventKind, peer_id: String) -> (event: PresenceEvent)
        ensures
            event@ == (EventModel { kind, peer_id: peer_id@ }),
    {
        match kind {
            EventKind::KeepAlive => PresenceEvent::KeepAlive(peer_id),
            EventKind::Join => PresenceEvent::Join(peer_id),
            EventKind::Leave => PresenceEvent::Leave(peer_id),
        }
    }

    /// Which announcement this is.
    pub fn kind(&self) -> (kind: EventKind)
        ensures
            kind == self@.kind,
    {
        match self {
            PresenceEvent::KeepAlive(_) => EventKind::KeepAlive,
            PresenceEvent::Join(_) => EventKind::Join,
            PresenceEvent::Leave(_) => EventKind::Leave,
        }
    }

    /// Whether the event names its peer.
    pub fn is_well_formed(&self) -> (named: bool)
        ensures
            named == self@.well_formed(),
    {
        !self.peer_id().is_empty()
    }

    /// The identifier of the peer that the event is about.
    pub fn peer_id(&self) -> (peer_id: &str)
        ensures
            peer_id@ == self@.peer_id,
    {
        match self {
            PresenceEvent::KeepAlive(id) => id.as_str(),
            PresenceEvent::Join(id) => id.as_str(),
            PresenceEvent::Leave(id) => id.as_str(),
        }
    }
}

/// Two events are equal when they are of one kind and about one identifier.
impl PartialEq for PresenceEvent {
    fn eq(&self, other: &PresenceEvent) -> (equal: bool) {
        match (self, other) {
            (PresenceEvent::KeepAlive(mine), PresenceEvent::KeepAlive(theirs)) => *mine == *theirs,
            (PresenceEvent::Join(mine), PresenceEvent::Join(theirs)) => *mine == *theirs,
            (PresenceEvent::Leave(mine), PresenceEvent::Leave(theirs)) => *mine == *theirs,
            _ => false,
        }
    }
}

impl PartialEqSpecImpl for PresenceEvent {
    open spec fn obeys_eq_spec() -> bool {
        true
    }

    open spec fn eq_spec(&self, other: &PresenceEvent) -> bool {
        self@ == other@
    }
}

impl Eq for PresenceEvent {

}

} // verus!
