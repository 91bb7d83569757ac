//! A minimal presence protocol for datagram transports.
//!
//! A process announces itself to a remote endpoint, proves that it is alive
//! with periodic heartbeats, and listens for the presence events of its peers.
//! This crate holds the protocol's logic as pure functions with machine-checked
//! contracts: the wire format of an event, the reading of a receive attempt,
//! and the decisions of the sender and of the receiver loop. Sockets, clocks
//! and threads stay with the caller, who performs the actions that the
//! functions here decide on and reports back what happened.

pub mod codec;
pub mod event;
pub mod receiver;
pub mod sender;
pub mod transport;
pub mod wire;

pub use codec::{decode, encode, DecodeError};
pub use event::{EventKind, EventModel, PresenceEvent};
pub use receiver::{receiver_step, ReceiverAction, Severity, IDLE_PAUSE_MILLIS};
pub use sender::{
    announcer_step, heartbeat, heartbeat_step, join_announcement, SenderAction, SenderEvent,
    HEARTBEAT_INTERVAL_SECS,
};
pub use transport::{read_receive, TransportFault, RECEIVE_BUFFER_CAPACITY};
