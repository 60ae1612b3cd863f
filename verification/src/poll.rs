//! How far an operation got.

use vstd::prelude::*;

use crate::error::FramedError;

verus! {

/// The state of a computation that may have to wait for the transport.
#[derive(Debug, PartialEq, Eq)]
pub enum Async<T> {
    /// The computation finished with this value.
    Ready(T),
    /// The transport was not ready; the caller is to try again once it is.
    NotReady,
}

/// Whether a sink took the value that was offered to it.
#[derive(Debug, PartialEq, Eq)]
pub enum AsyncSink<T> {
    /// The value was taken.
    Ready,
    /// The sink is still busy; the value comes back to the caller untouched.
    NotReady(T),
}

/// What a polling operation returns.
pub type Poll<T> = Result<Async<T>, FramedError>;

/// What an attempt to start a send returns.
pub type StartSend<T> = Result<AsyncSink<T>, FramedError>;

} // verus!
