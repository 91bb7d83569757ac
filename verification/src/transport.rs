//! What the shared datagram socket reports, and how it is read.
//!
//! The socket itself lives with the caller: one endpoint, bound once to an
//! ephemeral local address, non-blocking, and used by the sender and by the
//! receiver loop one call at a time. This module holds what the protocol
//! makes of the outcome of such a call.

use vstd::prelude::*;

verus! {

/// The size of the receive buffer. A longer datagram reaches the receiver cut
/// down to this many bytes.
pub const RECEIVE_BUFFER_CAPACITY: usize = 1024;

/// Why a send or a receive failed, as far as the protocol tells failures
/// apart.
#[derive(Clone, Copy, Debug, PartialEq, Eq, Structural)]
pub enum TransportFault {
    /// Nothing is pending on the non-blocking socket.
    WouldBlock,
    /// Nothing arrived within the socket's receive timeout.
    TimedOut,
    /// A signal cut the call short.
    Interrupted,
    /// An earlier datagram was refused at its destination.
    ConnectionRefused,
    /// An earlier datagram could not be delivered.
    ConnectionReset,
    /// The socket is not in a state to carry traffic.
    NotConnected,
    /// The socket does not accept the call at all.
    InvalidInput,
    /// Any other failure.
    Other,
}

impl TransportFault {
    /// The fault of a receive that found nothing to receive.
    pub open spec fn means_no_data(self) -> bool {
        self == TransportFault::WouldBlock || self == TransportFault::TimedOut
    }

    /// The fault says that the socket will not work again.
    pub open spec fn socket_unusable(self) -> bool {
        self == TransportFault::NotConnected || self == TransportFault::InvalidInput
    }

    /// Whether a receive with this fault merely found nothing to receive.
    pub fn is_no_data(self) -> (quiet: bool)
        ensures
            quiet == self.means_no_data(),
    {
        match self {
            TransportFault::WouldBlock => true,
            TransportFault::TimedOut => true,
            _ => false,
        }
    }

    /// Whether the fault says that the socket will not work again.
    pub fn is_socket_unusable(self) -> (unusable: bool)
        ensures
            unusable == self.socket_unusable(),
    {
        match self {
            TransportFault::NotConnected => true,
            TransportFault::InvalidInput => true,
            _ => false,
        }
    }
}

/// The datagram that a receive of `size` bytes left in `buffer`: the first
/// `size` bytes, and never more than the buffer holds.
pub open spec fn datagram_in(buffer: Seq<u8>, size: usize) -> Seq<u8> {
    if size <= buffer.len() {
        buffer.take(size as int)
    } else {
        buffer
    }
}

/// What a receive attempt amounts to: a datagram, nothing yet, or a failure.
/// Finding nothing pending is no failure.
pub open spec fn receipt(buffer: Seq<u8>, outcome: Result<usize, TransportFault>) -> Result<
    Option<Seq<u8>>,
    TransportFault,
> {
    match outcome {
        Ok(size) => Ok(Some(datagram_in(buffer, size))),
        Err(fault) => if fault.means_no_data() {
            Ok(None)
        } else {
            Err(fault)
        },
    }
}

/// The model of what a receive attempt amounts to.
pub open spec fn receipt_model(polled: Result<Option<&[u8]>, TransportFault>) -> Result<
    Option<Seq<u8>>,
    TransportFault,
> {
    match polled {
        Ok(Some(datagram)) => Ok(Some(datagram@)),
        Ok(None) => Ok(None),
        Err(fault) => Err(fault),
    }
}

/// Reads the outcome of one non-blocking receive into `buffer`: `Ok` with the
/// number of bytes received, or the fault.
pub fn read_receive<'a>(buffer: &'a [u8], outcome: Result<usize, TransportFault>) -> (polled:
    Result<Option<&'a [u8]>, TransportFault>)
    ensures
        receipt_model(polled) == receipt(buffer@, outcome),
{
    match outcome {
        Ok(size) => {
            if size <= buffer.len() {
                let datagram: &[u8] = &buffer[0..size];
                Ok(Some(datagram))
            } else {
                Ok(Some(buffer))
            }
        },
        Err(fault) => {
            if fault.is_no_data() {
                Ok(None)
            } else {
                Err(fault)
            }
        },
    }
}

} // verus!
