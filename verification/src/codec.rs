//! The contract between the adapter and the codec that gives frames their
//! meaning.

use vstd::prelude::*;

use crate::addr::SocketAddr;

verus! {

/// Encoding of frames via buffers.
///
/// A codec supplies the `In` and `Out` types which are decoded from and
/// encoded for the socket. Because datagrams are connectionless, `decode`
/// receives the address a datagram came from, and `encode` decides where a
/// datagram is sent.
///
/// A codec may keep state between calls. What a call may do is stated by the
/// relations `decodes` and `encodes`, which each codec defines for itself and
/// must then live up to; a codec that defines neither promises nothing. The
/// adapter tells its callers no more about a codec than these relations say.
pub trait UnixDatagramCodec {
    /// The type of decoded frames.
    type In;

    /// The type of frames to be encoded.
    type Out;

    /// Whether `decode`, called in state `self` on the datagram `buf` from
    /// `src`, may leave the codec in state `post` and return `result`.
    open spec fn decodes(
        &self,
        src: SocketAddr,
        buf: Seq<u8>,
        post: &Self,
        result: Result<Self::In, std::io::Error>,
    ) -> bool {
        true
    }

    /// Attempts to decode a frame from one datagram.
    ///
    /// `buf` holds exactly the bytes of the datagram and `src` is the address
    /// it came from. The whole of `buf` is one frame: a codec should report
    /// malformed content, trailing bytes included, as an error, which tells
    /// the adapter that the stream is corrupt and to be terminated.
    fn decode(&mut self, src: &SocketAddr, buf: &[u8]) -> (result: std::io::Result<Self::In>)
        ensures
            old(self).decodes(*src, buf@, final(self), result),
    ;

    /// Whether `encode`, called in state `self` with `msg` and a buffer that
    /// holds `before`, may leave the codec in state `post` and the buffer
    /// holding `after`, and return `result`.
    open spec fn encodes(
        &self,
        msg: Self::Out,
        before: Seq<u8>,
        post: &Self,
        after: Seq<u8>,
        result: Result<std::path::PathBuf, std::io::Error>,
    ) -> bool {
        true
    }

    /// Encodes a frame into the buffer provided.
    ///
    /// `buf` is the adapter's send buffer, empty when the call is made; the
    /// codec appends the bytes of `msg` to it. The path returned is the
    /// destination the datagram will be sent to.
    fn encode(&mut self, msg: Self::Out, buf: &mut Vec<u8>) -> (result: std::io::Result<
        std::path::PathBuf,
    >)
        ensures
            old(self).encodes(msg, old(buf)@, final(self), final(buf)@, result),
    ;
}

} // verus!
