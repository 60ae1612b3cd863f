//! A framing adapter that turns a datagram socket into a typed, bidirectional
//! stream of messages: one datagram is one frame, and a codec decides how a
//! frame is laid out and where it is sent.
//!
//! The adapter never touches the socket itself. It decides; its driver
//! performs the non-blocking I/O those decisions ask for and reports the
//! outcome back as a [`RecvEvent`] or a [`SendEvent`].

pub mod addr;
pub mod codec;
pub mod error;
pub mod event;
pub mod framed;
pub mod laws;
pub mod model;
pub mod poll;

pub use addr::SocketAddr;
pub use codec::UnixDatagramCodec;
pub use error::FramedError;
pub use event::{RecvEvent, SendEvent};
pub use framed::{new, UnixDatagramFramed};
pub use model::{FramedView, RECV_CAPACITY, SEND_CAPACITY};
pub use poll::{Async, AsyncSink, Poll, StartSend};
