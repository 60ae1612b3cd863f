//! The errors an adapter reports.

use vstd::prelude::*;

verus! {

/// `std::io::Error`, carried through the adapter without being inspected.
#[verifier::external_type_specification]
#[verifier::external_body]
pub struct ExIoError(std::io::Error);

/// Why an adapter operation failed.
#[derive(Debug)]
pub enum FramedError {
    /// The transport reported an I/O failure while receiving or sending.
    Transport(std::io::Error),
    /// The codec rejected a received datagram.
    Decode(std::io::Error),
    /// The codec could not serialise or address an outgoing value.
    Encode(std::io::Error),
    /// The transport accepted fewer bytes than the frame holds.
    ShortWrite,
    /// The stream was polled after a decode error had terminated it.
    Terminated,
}

impl FramedError {
    /// The text that describes a short write.
    pub fn short_write_message() -> (s: &'static str)
        ensures
            s@ == "failed to write entire datagram to socket"@,
    {
        "failed to write entire datagram to socket"
    }

    /// The text that describes a poll of a terminated stream.
    pub fn terminated_message() -> (s: &'static str)
        ensures
            s@ == "stream terminated by a decode error"@,
    {
        "stream terminated by a decode error"
    }
}

} // verus!
