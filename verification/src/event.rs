//! What the transport reports back after one non-blocking attempt.

use vstd::prelude::*;

use crate::addr::SocketAddr;

verus! {

/// The outcome of one attempt to receive a datagram into the receive buffer.
#[derive(Debug)]
pub enum RecvEvent {
    /// No datagram was waiting.
    NotReady,
    /// A datagram of `n` bytes from `src` now occupies the front of the
    /// receive buffer.
    Received { n: usize, src: SocketAddr },
    /// The transport failed.
    Failed(std::io::Error),
}

/// The outcome of one attempt to send the pending frame.
#[derive(Debug)]
pub enum SendEvent {
    /// The transport could not take the datagram yet.
    NotReady,
    /// The transport took the datagram and reports this many bytes written.
    Sent(usize),
    /// The transport failed.
    Failed(std::io::Error),
}

} // verus!
