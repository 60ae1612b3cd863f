//! The adapter itself.

use vstd::prelude::*;
use vstd::slice::slice_subrange;

use crate::codec::UnixDatagramCodec;
use crate::error::FramedError;
use crate::event::{RecvEvent, SendEvent};
use crate::model::{FramedView, RECV_CAPACITY, SEND_CAPACITY};
use crate::poll::{Async, AsyncSink, Poll, StartSend};

verus! {

/// A unified stream and sink over a datagram socket, using a
/// [`UnixDatagramCodec`] to decode and encode frames.
///
/// The adapter owns the socket, the codec, a receive buffer of
/// [`RECV_CAPACITY`] bytes that every receive overwrites, and a send buffer
/// that holds at most one frame. It performs no I/O: [`Self::recv_parts`] and
/// [`Self::send_parts`] lend the driver what one non-blocking attempt needs,
/// and the operations take the outcome of that attempt as an event.
pub struct UnixDatagramFramed<S, C> {
    socket: S,
    codec: C,
    rd: Box<[u8; RECV_CAPACITY]>,
    wr: Vec<u8>,
    out_addr: Option<std::path::PathBuf>,
    read_failed: bool,
}

impl<S, C> View for UnixDatagramFramed<S, C> {
    type V = FramedView<S, C>;

    closed spec fn view(&self) -> FramedView<S, C> {
        FramedView {
            socket: self.socket,
            codec: self.codec,
            recv_buffer: self.rd@,
            send_buffer: self.wr@,
            destination: self.out_addr,
            read_failed: self.read_failed,
        }
    }
}

/// Wraps `socket` and `codec` in an adapter with a zeroed receive buffer of
/// [`RECV_CAPACITY`] bytes and nothing to send.
pub fn new<S, C: UnixDatagramCodec>(socket: S, codec: C) -> (framed: UnixDatagramFramed<S, C>)
    ensures
        framed@.wf(),
        framed@ == (FramedView {
            socket,
            codec,
            recv_buffer: Seq::new(RECV_CAPACITY as nat, |i: int| 0u8),
            send_buffer: Seq::empty(),
            destination: None,
            read_failed: false,
        }),
{
    let rd = Box::new([0u8; RECV_CAPACITY]);
    assert(rd@ =~= Seq::new(RECV_CAPACITY as nat, |i: int| 0u8));
    UnixDatagramFramed {
        socket,
        codec,
        rd,
        wr: Vec::with_capacity(SEND_CAPACITY),
        out_addr: None,
        read_failed: false,
    }
}

impl<S, C> UnixDatagramFramed<S, C> {
    /// Returns a reference to the underlying socket.
    pub fn get_ref(&self) -> (socket: &S)
        ensures
            *socket == self@.socket,
    {
        &self.socket
    }

    /// Returns a mutable reference to the underlying socket.
    ///
    /// Whatever the caller does to the socket is all that changes; take care
    /// not to disturb the datagrams that the adapter is working with.
    pub fn get_mut(&mut self) -> (socket: &mut S)
        ensures
            old(self)@.wf() ==> final(self)@.wf(),
            *socket == old(self)@.socket,
            final(self)@ == (FramedView { socket: *final(socket), ..old(self)@ }),
    {
        &mut self.socket
    }

    /// Consumes the adapter, returning its underlying socket. A frame that
    /// is still in flight is lost.
    pub fn into_inner(self) -> (socket: S)
        ensures
            socket == self@.socket,
    {
        self.socket
    }

    /// What the driver is to receive into: the socket and the whole receive
    /// buffer, or `None` once the receiving side has been terminated, after
    /// which nothing is received any more. The outcome of the attempt goes
    /// to [`Self::poll_next`].
    pub fn recv_parts(&mut self) -> (parts: Option<(&mut S, &mut [u8])>)
        ensures
            old(self)@.wf() ==> final(self)@.wf(),
            old(self)@.read_failed ==> parts is None && final(self)@ == old(self)@,
            !old(self)@.read_failed ==> {
                &&& parts matches Some(p)
                &&& *p.0 == old(self)@.socket
                &&& p.1@ == old(self)@.recv_buffer
                &&& final(self)@ == (FramedView {
                    socket: *final(p.0),
                    recv_buffer: final(p.1)@,
                    ..old(self)@
                })
            },
    {
        if self.read_failed {
            None
        } else {
            let whole: &mut [u8; RECV_CAPACITY] = &mut *self.rd;
            let buf: &mut [u8] = whole;
            Some((&mut self.socket, buf))
        }
    }

    /// What the driver is to send: the socket, the frame in flight and its
    /// destination, or `None` when nothing is in flight. The outcome of the
    /// attempt goes to [`Self::poll_complete`], [`Self::poll_ready`],
    /// [`Self::start_send`] or [`Self::close`].
    pub fn send_parts(&mut self) -> (parts: Option<(&mut S, &[u8], &std::path::PathBuf)>)
        ensures
            old(self)@.wf() ==> final(self)@.wf(),
            old(self)@.pending() is None ==> parts is None && final(self)@ == old(self)@,
            old(self)@.pending() is Some ==> {
                &&& parts matches Some(p)
                &&& *p.0 == old(self)@.socket
                &&& old(self)@.pending() == Some((p.1@, *p.2))
                &&& final(self)@ == (FramedView { socket: *final(p.0), ..old(self)@ })
            },
    {
        if self.wr.is_empty() {
            None
        } else {
            match &self.out_addr {
                Some(dest) => Some((&mut self.socket, self.wr.as_slice(), dest)),
                None => None,
            }
        }
    }

    /// Drives the frame in flight towards the transport.
    ///
    /// `event` is the outcome of the attempt that [`Self::send_parts`] asked
    /// for, or `None` if it asked for none.
    pub fn poll_complete(&mut self, event: Option<SendEvent>) -> (result: Poll<()>)
        ensures
            old(self)@.wf() ==> final(self)@.wf(),
            (final(self)@, result) == old(self)@.flush(event),
    {
        if self.wr.is_empty() {
            return Ok(Async::Ready(()));
        }
        match event {
            None => Ok(Async::NotReady),
            Some(SendEvent::NotReady) => Ok(Async::NotReady),
            Some(SendEvent::Failed(e)) => {
                self.wr.clear();
                Err(FramedError::Transport(e))
            },
            Some(SendEvent::Sent(n)) => {
                let short = n < self.wr.len();
                self.wr.clear();
                if short {
                    Err(FramedError::ShortWrite)
                } else {
                    Ok(Async::Ready(()))
                }
            },
        }
    }

    /// Whether the sink can take a new frame: drains the frame in flight, if
    /// there is one, and is ready once the send buffer is empty.
    ///
    /// `event` is the outcome of the attempt that [`Self::send_parts`] asked
    /// for, or `None` if it asked for none.
    pub fn poll_ready(&mut self, event: Option<SendEvent>) -> (result: Poll<()>)
        ensures
            old(self)@.wf() ==> final(self)@.wf(),
            (final(self)@, result) == old(self)@.flush(event),
            result is Ok ==> (result matches Ok(Async::Ready(_)) <==> !final(self)@.in_flight()),
    {
        if !self.wr.is_empty() {
            match self.poll_complete(event) {
                Err(e) => {
                    return Err(e);
                },
                Ok(_) => {},
            }
            if !self.wr.is_empty() {
                return Ok(Async::NotReady);
            }
        }
        Ok(Async::Ready(()))
    }

    /// Closes the sink: drains the frame in flight and does nothing more,
    /// since a connectionless transport has no handshake to perform.
    ///
    /// `event` is the outcome of the attempt that [`Self::send_parts`] asked
    /// for, or `None` if it asked for none.
    pub fn close(&mut self, event: Option<SendEvent>) -> (result: Poll<()>)
        ensures
            old(self)@.wf() ==> final(self)@.wf(),
            (final(self)@, result) == old(self)@.flush(event),
    {
        self.poll_complete(event)
    }
}

impl<S, C: UnixDatagramCodec> UnixDatagramFramed<S, C> {
    /// Turns the codec's answer for a datagram into what the stream yields.
    fn yield_decoded(&mut self, decoded: std::io::Result<C::In>) -> (result: Poll<Option<C::In>>)
        ensures
            (final(self)@, result) == old(self)@.yield_decoded(old(self)@.codec, decoded),
    {
        match decoded {
            Ok(frame) => Ok(Async::Ready(Some(frame))),
            Err(e) => {
                self.read_failed = true;
                Err(FramedError::Decode(e))
            },
        }
    }

    /// Polls the stream for the next frame.
    ///
    /// `event` is the outcome of the attempt that [`Self::recv_parts`] asked
    /// for, or `None` if it asked for none. A datagram cannot be longer than
    /// the buffer it was received into. The stream never reports its end:
    /// while it is live it waits, yields or fails, and once a decode error
    /// has terminated it every poll fails with [`FramedError::Terminated`].
    pub fn poll_next(&mut self, event: Option<RecvEvent>) -> (result: Poll<Option<C::In>>)
        requires
            !old(self)@.read_failed ==> (event matches Some(RecvEvent::Received { n, .. })
                ==> n <= RECV_CAPACITY),
        ensures
            old(self)@.wf() ==> final(self)@.wf(),
            old(self)@.polls_next(event, final(self)@, result),
            !(result matches Ok(Async::Ready(None))),
            old(self)@.read_failed ==> final(self)@ == old(self)@ && result matches Err(
                FramedError::Terminated,
            ),
    {
        if self.read_failed {
            return Err(FramedError::Terminated);
        }
        match event {
            None => Ok(Async::NotReady),
            Some(RecvEvent::NotReady) => Ok(Async::NotReady),
            Some(RecvEvent::Failed(e)) => Err(FramedError::Transport(e)),
            Some(RecvEvent::Received { n, src }) => {
                let ghost pre = self@;
                let decoded = self.codec.decode(&src, slice_subrange(self.rd.as_slice(), 0, n));
                let ghost answer = decoded;
                let result = self.yield_decoded(decoded);
                let ghost asked = pre.to_decode(event)->0;
                assert(pre.codec.decodes(asked.0, asked.1, &self@.codec, answer));
                result
            },
        }
    }

    /// Turns the codec's answer for an outgoing value into what the sink
    /// reports, keeping the frame only if the codec succeeded.
    fn commit(&mut self, encoded: std::io::Result<std::path::PathBuf>) -> (result: StartSend<
        C::Out,
    >)
        ensures
            (final(self)@, result) == old(self)@.commit(
                old(self)@.codec,
                old(self)@.send_buffer,
                encoded,
            ),
    {
        match encoded {
            Ok(dest) => {
                self.out_addr = Some(dest);
                Ok(AsyncSink::Ready)
            },
            Err(e) => {
                self.wr.clear();
                Err(FramedError::Encode(e))
            },
        }
    }

    /// Offers `item` to the sink.
    ///
    /// `event` is the outcome of the attempt that [`Self::send_parts`] asked
    /// for, or `None` if it asked for none. The value comes back if the
    /// frame in flight could not be drained; it is lost if draining or
    /// encoding fails.
    pub fn start_send(&mut self, item: C::Out, event: Option<SendEvent>) -> (result: StartSend<
        C::Out,
    >)
        ensures
            old(self)@.wf() ==> final(self)@.wf(),
            old(self)@.starts_send(item, event, final(self)@, result),
    {
        match self.poll_ready(event) {
            Err(e) => {
                return Err(e);
            },
            Ok(Async::NotReady) => {
                return Ok(AsyncSink::NotReady(item));
            },
            Ok(Async::Ready(_)) => {},
        }
        let ghost mid = self@;
        let encoded = self.codec.encode(item, &mut self.wr);
        let ghost answer = encoded;
        let ghost bytes = self@.send_buffer;
        let result = self.commit(encoded);
        assert(mid.send_buffer =~= Seq::<u8>::empty());
        assert(mid.codec.encodes(item, Seq::empty(), &self@.codec, bytes, answer));
        result
    }
}

} // verus!
