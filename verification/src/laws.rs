//! Laws of the adapter, proved of the state machine that the contract of
//! every operation of [`crate::framed::UnixDatagramFramed`] binds it to.

use vstd::prelude::*;

use crate::addr::SocketAddr;
use crate::codec::UnixDatagramCodec;
use crate::error::FramedError;
use crate::event::{RecvEvent, SendEvent};
use crate::model::FramedView;
use crate::poll::{Async, AsyncSink, Poll, StartSend};

verus! {

/// Round trip.
///
/// Let a sink accept `value` as a frame that is not empty. Then what it
/// asks the transport to send is exactly what its codec wrote for `value`,
/// to the destination the codec chose, and a send of the whole frame
/// completes and leaves nothing in flight. If the transport delivers those
/// `n` bytes to a receiver whose stream is live, the receiver yields the
/// codec's answer for exactly those bytes; so with a codec that decodes what
/// it encodes, as `same` judges it, the receiver yields a frame that is the
/// same as `value`.
///
/// A value that the codec encodes as no bytes at all is left out: the
/// adapter sends no datagram for it.
pub proof fn lemma_round_trip<S1, S2, C: UnixDatagramCodec>(
    sender: FramedView<S1, C>,
    value: C::Out,
    event: Option<SendEvent>,
    accepted: FramedView<S1, C>,
    receiver: FramedView<S2, C>,
    n: usize,
    src: SocketAddr,
    arrived: FramedView<S2, C>,
    received: Poll<Option<C::In>>,
    same: spec_fn(C::Out, C::In) -> bool,
)
    requires
        sender.starts_send(value, event, accepted, Ok(AsyncSink::Ready)),
        accepted.in_flight(),
        n == accepted.send_buffer.len(),
        receiver.recv_buffer.subrange(0, n as int) == accepted.send_buffer,
        !receiver.read_failed,
        receiver.polls_next(Some(RecvEvent::Received { n, src }), arrived, received),
        forall|
            enc: C,
            enc_post: C,
            dec: C,
            dec_post: C,
            from: SocketAddr,
            bytes: Seq<u8>,
            dest: std::path::PathBuf,
            answer: Result<C::In, std::io::Error>,
        |
            #![trigger
                enc.encodes(value, Seq::empty(), &enc_post, bytes, Ok(dest)),
                dec.decodes(from, bytes, &dec_post, answer),
            ]
            enc.encodes(value, Seq::empty(), &enc_post, bytes, Ok(dest)) && dec.decodes(
                from,
                bytes,
                &dec_post,
                answer,
            ) ==> (answer matches Ok(frame) && same(value, frame)),
    ensures
        accepted.pending() matches Some(asked) && sender.flush(event).0.codec.encodes(
            value,
            Seq::empty(),
            &accepted.codec,
            asked.0,
            Ok(asked.1),
        ),
        accepted.flush(Some(SendEvent::Sent(n))).0 == accepted.drained(),
        accepted.flush(Some(SendEvent::Sent(n))).1 matches Ok(Async::Ready(_)),
        !accepted.drained().in_flight(),
        received matches Ok(Async::Ready(Some(frame))) && same(value, frame),
{
}

/// Backpressure.
///
/// While a frame is in flight and the transport refuses it, draining
/// changes nothing and reports that it is not done, and a value offered
/// next is rejected: it comes back unchanged, and the frame in flight, its
/// destination and the codec are as they were. A refusal is the event
/// `NotReady` or an attempt that was not made.
pub proof fn lemma_backpressure<S, C: UnixDatagramCodec>(
    pre: FramedView<S, C>,
    refused: Option<SendEvent>,
    item: C::Out,
    refused_again: Option<SendEvent>,
    post: FramedView<S, C>,
    result: StartSend<C::Out>,
)
    requires
        pre.in_flight(),
        refused is None || refused == Some(SendEvent::NotReady),
        refused_again is None || refused_again == Some(SendEvent::NotReady),
        pre.flush(refused).0.starts_send(item, refused_again, post, result),
    ensures
        pre.flush(refused).0 == pre,
        pre.flush(refused).1 matches Ok(Async::NotReady),
        result matches Ok(AsyncSink::NotReady(back)) && back == item,
        post == pre,
{
}

/// Single frame in flight.
///
/// Once the sink has accepted `first` as a frame that is not empty, what
/// becomes of that frame when `second` is offered depends on the transport
/// alone. While the transport has not taken the frame, `second` is rejected
/// and the frame is untouched. A send that failed or fell short fails the
/// call and empties the send buffer, and `second` never reaches the codec.
/// The sink accepts `second` only if the transport has reported a send of
/// the whole of the first frame.
pub proof fn lemma_single_in_flight<S, C: UnixDatagramCodec>(
    pre: FramedView<S, C>,
    first: C::Out,
    event: Option<SendEvent>,
    accepted: FramedView<S, C>,
    second: C::Out,
    next_event: Option<SendEvent>,
    post: FramedView<S, C>,
    result: StartSend<C::Out>,
)
    requires
        pre.starts_send(first, event, accepted, Ok(AsyncSink::Ready)),
        accepted.in_flight(),
        accepted.starts_send(second, next_event, post, result),
    ensures
        next_event is None || next_event == Some(SendEvent::NotReady) ==> {
            &&& result matches Ok(AsyncSink::NotReady(back)) && back == second
            &&& post == accepted
        },
        next_event matches Some(SendEvent::Failed(e)) ==> {
            &&& result matches Err(FramedError::Transport(passed)) && passed == e
            &&& post == accepted.drained()
        },
        next_event matches Some(SendEvent::Sent(n)) && n < accepted.send_buffer.len() ==> {
            &&& result matches Err(FramedError::ShortWrite)
            &&& post == accepted.drained()
        },
        result matches Ok(AsyncSink::Ready) ==> {
            &&& next_event matches Some(SendEvent::Sent(n))
            &&& n >= accepted.send_buffer.len()
        },
        post.send_buffer != accepted.send_buffer ==> next_event matches Some(SendEvent::Sent(_))
            || next_event matches Some(SendEvent::Failed(_)),
{
}

/// Short writes are fatal.
///
/// If the transport reports fewer bytes written than the frame in flight
/// holds, draining fails with [`FramedError::ShortWrite`] and leaves the send
/// buffer empty, so that the next attempt to drain is done at once.
pub proof fn lemma_short_write<S, C>(pre: FramedView<S, C>, n: usize, next: Option<SendEvent>)
    requires
        n < pre.send_buffer.len(),
    ensures
        pre.flush(Some(SendEvent::Sent(n))).0 == pre.drained(),
        pre.flush(Some(SendEvent::Sent(n))).1 matches Err(FramedError::ShortWrite),
        pre.drained().send_buffer.len() == 0,
        pre.drained().flush(next).0 == pre.drained(),
        pre.drained().flush(next).1 matches Ok(Async::Ready(_)),
{
}

/// Decode isolation.
///
/// Let one poll yield `frame` from a datagram. Let the driver then receive
/// the next datagram, which may change the socket and refills the receive
/// buffer, and let the poll that follows fail to decode it. Then `frame` is
/// the codec's answer for the first datagram alone, as the receive buffer
/// held it at the first poll; nothing that was received later is any part
/// of it. The failure touches only the receiving side: it terminates the
/// stream, while the socket, both buffers and the destination are as the
/// driver and the first poll left them.
pub proof fn lemma_decode_isolation<S, C: UnixDatagramCodec>(
    pre: FramedView<S, C>,
    n: usize,
    src: SocketAddr,
    yielded: FramedView<S, C>,
    frame: C::In,
    socket: S,
    refilled: Seq<u8>,
    bad_n: usize,
    bad_src: SocketAddr,
    failed: FramedView<S, C>,
    error: std::io::Error,
)
    requires
        pre.polls_next(
            Some(RecvEvent::Received { n, src }),
            yielded,
            Ok(Async::Ready(Some(frame))),
        ),
        (FramedView { socket, recv_buffer: refilled, ..yielded }).polls_next(
            Some(RecvEvent::Received { n: bad_n, src: bad_src }),
            failed,
            Err(FramedError::Decode(error)),
        ),
    ensures
        !pre.read_failed,
        pre.codec.decodes(src, pre.recv_buffer.subrange(0, n as int), &yielded.codec, Ok(frame)),
        yielded == (FramedView { codec: yielded.codec, ..pre }),
        yielded.codec.decodes(
            bad_src,
            refilled.subrange(0, bad_n as int),
            &failed.codec,
            Err(error),
        ),
        failed == (FramedView {
            socket,
            recv_buffer: refilled,
            codec: failed.codec,
            read_failed: true,
            ..yielded
        }),
{
}

/// A terminated stream fails for good.
///
/// Once a decode error has terminated the stream, every poll fails with
/// [`FramedError::Terminated`] and changes nothing, whatever the transport
/// reports; the codec is not asked again.
pub proof fn lemma_terminated_stream_fails<S, C: UnixDatagramCodec>(
    pre: FramedView<S, C>,
    event: Option<RecvEvent>,
    post: FramedView<S, C>,
    result: Poll<Option<C::In>>,
)
    requires
        pre.read_failed,
        pre.polls_next(event, post, result),
    ensures
        pre.to_decode(event) is None,
        result matches Err(FramedError::Terminated),
        post == pre,
{
}

/// The stream never ends.
///
/// In no state and for no event does a poll report the end of the stream:
/// it waits, yields a frame or fails. A datagram of no bytes is handed to
/// the codec like any other.
pub proof fn lemma_stream_never_ends<S, C: UnixDatagramCodec>(
    pre: FramedView<S, C>,
    event: Option<RecvEvent>,
    post: FramedView<S, C>,
    result: Poll<Option<C::In>>,
)
    requires
        pre.polls_next(event, post, result),
    ensures
        !(result matches Ok(Async::Ready(None))),
        !pre.read_failed ==> (event matches Some(RecvEvent::Received { n, src })
            ==> pre.to_decode(event) == Some((src, pre.recv_buffer.subrange(0, n as int)))),
{
}

/// Well-formedness is invariant.
///
/// Whatever the transport reports and whatever the codec answers, no
/// operation leads from a well-formed state to one that is not: the receive
/// buffer keeps its size, and a frame in flight has the destination that the
/// codec chose for it.
pub proof fn lemma_wf_is_invariant<S, C: UnixDatagramCodec>(
    pre: FramedView<S, C>,
    sent: Option<SendEvent>,
    received: Option<RecvEvent>,
    item: C::Out,
    polled: FramedView<S, C>,
    frame: Poll<Option<C::In>>,
    offered: FramedView<S, C>,
    taken: StartSend<C::Out>,
)
    requires
        pre.wf(),
        pre.polls_next(received, polled, frame),
        pre.starts_send(item, sent, offered, taken),
    ensures
        pre.flush(sent).0.wf(),
        polled.wf(),
        offered.wf(),
{
}

} // verus!
