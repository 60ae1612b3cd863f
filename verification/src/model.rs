//! The adapter as a mathematical state machine.
//!
//! [`FramedView`] is what an adapter is worth to its callers; the functions
//! and relations on it say, for every state and every event, what each
//! operation returns and which state it leaves behind.

use vstd::prelude::*;

use crate::addr::SocketAddr;
use crate::codec::UnixDatagramCodec;
use crate::error::FramedError;
use crate::event::{RecvEvent, SendEvent};
use crate::poll::{Async, AsyncSink, Poll, StartSend};

verus! {

/// The size of the receive buffer, and so of the longest datagram that is
/// received whole.
pub const RECV_CAPACITY: usize = 64 * 1024;

/// The room the send buffer starts out with.
pub const SEND_CAPACITY: usize = 8 * 1024;

/// The abstract state of an adapter.
pub struct FramedView<S, C> {
    /// The socket the adapter owns.
    pub socket: S,
    /// The codec, in its current state.
    pub codec: C,
    /// The contents of the receive buffer.
    pub recv_buffer: Seq<u8>,
    /// The bytes of the frame that is waiting to be sent; empty when no frame
    /// is in flight.
    pub send_buffer: Seq<u8>,
    /// Where the most recently accepted frame goes.
    pub destination: Option<std::path::PathBuf>,
    /// Whether a decode error has terminated the receiving side, which then
    /// fails for good.
    pub read_failed: bool,
}

impl<S, C> FramedView<S, C> {
    /// Whether a frame is waiting to be sent.
    pub open spec fn in_flight(self) -> bool {
        self.send_buffer.len() > 0
    }

    /// What holds of every adapter from its construction on: the receive
    /// buffer has its fixed size, and a frame in flight has a destination.
    pub open spec fn wf(self) -> bool {
        &&& self.recv_buffer.len() == RECV_CAPACITY
        &&& self.in_flight() ==> self.destination is Some
    }

    /// What the transport is to be asked next: to send this frame to this
    /// destination.
    pub open spec fn pending(self) -> Option<(Seq<u8>, std::path::PathBuf)> {
        if self.in_flight() && self.destination is Some {
            Some((self.send_buffer, self.destination->0))
        } else {
            None
        }
    }

    /// The state once the send buffer has been cleared.
    pub open spec fn drained(self) -> Self {
        FramedView { send_buffer: Seq::empty(), ..self }
    }

    /// One step of draining the send buffer.
    ///
    /// With nothing in flight the step is done at once, whatever the event.
    /// Otherwise `event` is the outcome of sending the whole buffer to the
    /// destination, `None` standing for an attempt that was not made. The
    /// frame stays while the transport is not ready and is gone after any
    /// attempt that completed or failed; a completed send of fewer bytes
    /// than the frame holds is a short write.
    pub open spec fn flush(self, event: Option<SendEvent>) -> (Self, Poll<()>) {
        if !self.in_flight() {
            (self, Ok(Async::Ready(())))
        } else {
            match event {
                None => (self, Ok(Async::NotReady)),
                Some(SendEvent::NotReady) => (self, Ok(Async::NotReady)),
                Some(SendEvent::Failed(e)) => (self.drained(), Err(FramedError::Transport(e))),
                Some(SendEvent::Sent(n)) => (
                    self.drained(),
                    if n < self.send_buffer.len() {
                        Err(FramedError::ShortWrite)
                    } else {
                        Ok(Async::Ready(()))
                    },
                ),
            }
        }
    }
}

impl<S, C: UnixDatagramCodec> FramedView<S, C> {
    /// What polling the stream hands to the codec: the source and the bytes
    /// of the datagram that was received, if the stream is live and one was.
    pub open spec fn to_decode(self, event: Option<RecvEvent>) -> Option<(SocketAddr, Seq<u8>)> {
        if self.read_failed {
            None
        } else {
            match event {
                Some(RecvEvent::Received { n, src }) => Some(
                    (src, self.recv_buffer.subrange(0, n as int)),
                ),
                _ => None,
            }
        }
    }

    /// What polling the stream comes to when there is nothing to decode: a
    /// terminated stream fails, whatever the event, a transport failure is
    /// passed on, and otherwise the stream waits. Nothing changes.
    pub open spec fn poll_idle(self, event: Option<RecvEvent>) -> (Self, Poll<Option<C::In>>) {
        if self.read_failed {
            (self, Err(FramedError::Terminated))
        } else {
            match event {
                Some(RecvEvent::Failed(e)) => (self, Err(FramedError::Transport(e))),
                _ => (self, Ok(Async::NotReady)),
            }
        }
    }

    /// What the stream yields once the codec, now in state `codec`, has
    /// answered `decoded` for a datagram: the frame, or a decode error that
    /// terminates the receiving side.
    pub open spec fn yield_decoded(self, codec: C, decoded: Result<C::In, std::io::Error>) -> (
        Self,
        Poll<Option<C::In>>,
    ) {
        match decoded {
            Ok(frame) => (FramedView { codec, ..self }, Ok(Async::Ready(Some(frame)))),
            Err(e) => (
                FramedView { codec, read_failed: true, ..self },
                Err(FramedError::Decode(e)),
            ),
        }
    }

    /// Whether polling the stream in state `self` with `event` may end in
    /// state `post` with `result`.
    ///
    /// `event` is the outcome of receiving into the receive buffer, `None`
    /// standing for an attempt that was not made. The codec is asked once
    /// for each datagram received on a live stream, and for nothing else.
    pub open spec fn polls_next(
        self,
        event: Option<RecvEvent>,
        post: Self,
        result: Poll<Option<C::In>>,
    ) -> bool {
        match self.to_decode(event) {
            Some((src, datagram)) => exists|decoded: Result<C::In, std::io::Error>|
                {
                    &&& #[trigger] self.codec.decodes(src, datagram, &post.codec, decoded)
                    &&& (post, result) == self.yield_decoded(post.codec, decoded)
                },
            None => (post, result) == self.poll_idle(event),
        }
    }

    /// What offering `item` comes to when draining, with the outcome
    /// `flushed`, has not emptied the send buffer: a failure is passed on,
    /// and otherwise `item` comes back.
    pub open spec fn turn_away(self, item: C::Out, flushed: Poll<()>) -> (
        Self,
        StartSend<C::Out>,
    ) {
        match flushed {
            Err(e) => (self, Err(e)),
            Ok(_) => (self, Ok(AsyncSink::NotReady(item))),
        }
    }

    /// What becomes of an empty send buffer once the codec, now in state
    /// `codec`, has written `bytes` into it and answered `encoded`: the
    /// frame is in flight to the destination the codec chose, or nothing of
    /// it is kept.
    pub open spec fn commit(
        self,
        codec: C,
        bytes: Seq<u8>,
        encoded: Result<std::path::PathBuf, std::io::Error>,
    ) -> (Self, StartSend<C::Out>) {
        match encoded {
            Ok(dest) => (
                FramedView { codec, send_buffer: bytes, destination: Some(dest), ..self },
                Ok(AsyncSink::Ready),
            ),
            Err(e) => (
                FramedView { codec, send_buffer: Seq::empty(), ..self },
                Err(FramedError::Encode(e)),
            ),
        }
    }

    /// Whether offering `item` to the sink in state `self` with `event` may
    /// end in state `post` with `result`.
    ///
    /// A frame in flight is drained first, `event` being the outcome of
    /// that attempt. Only if that leaves the send buffer empty is the codec
    /// asked to encode `item` into it.
    pub open spec fn starts_send(
        self,
        item: C::Out,
        event: Option<SendEvent>,
        post: Self,
        result: StartSend<C::Out>,
    ) -> bool {
        let (mid, flushed) = self.flush(event);
        if flushed matches Ok(Async::Ready(_)) {
            exists|bytes: Seq<u8>, encoded: Result<std::path::PathBuf, std::io::Error>|
                {
                    &&& #[trigger] mid.codec.encodes(
                        item,
                        Seq::empty(),
                        &post.codec,
                        bytes,
                        encoded,
                    )
                    &&& (post, result) == mid.commit(post.codec, bytes, encoded)
                }
        } else {
            (post, result) == mid.turn_away(item, flushed)
        }
    }
}

} // verus!
