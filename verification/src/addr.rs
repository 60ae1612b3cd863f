//! Addresses of datagram peers.

use vstd::prelude::*;

verus! {

/// `std::path::PathBuf`, carried through the adapter without being inspected.
#[verifier::external_type_specification]
#[verifier::external_body]
pub struct ExPathBuf(std::path::PathBuf);

/// `PathBuf::clone` returns a path equal to the one it was called on.
pub assume_specification[ <std::path::PathBuf as Clone>::clone ](path: &std::path::PathBuf) -> (copy:
    std::path::PathBuf)
    ensures
        copy == *path,
;

/// Where a received datagram came from.
#[derive(Debug, PartialEq, Eq)]
pub enum SocketAddr {
    /// The sender's socket is not bound to any name.
    Unnamed,
    /// The sender's socket is bound to a path in the file system.
    Pathname(std::path::PathBuf),
    /// The sender's socket is bound to a name in the abstract namespace.
    Abstract(Vec<u8>),
}

impl Clone for SocketAddr {
    /// An address of the same kind with the same name.
    fn clone(&self) -> (copy: SocketAddr)
        ensures
            *self is Unnamed ==> copy is Unnamed,
            *self matches SocketAddr::Pathname(path) ==> copy == SocketAddr::Pathname(path),
            *self matches SocketAddr::Abstract(name) ==> (copy matches SocketAddr::Abstract(same)
                && same@ == name@),
    {
        match self {
            SocketAddr::Unnamed => SocketAddr::Unnamed,
            SocketAddr::Pathname(path) => SocketAddr::Pathname(path.clone()),
            SocketAddr::Abstract(name) => SocketAddr::Abstract(name.clone()),
        }
    }
}

impl SocketAddr {
    /// Whether the address carries no name.
    pub fn is_unnamed(&self) -> (r: bool)
        ensures
            r == (*self is Unnamed),
    {
        match self {
            SocketAddr::Unnamed => true,
            _ => false,
        }
    }

    /// The file-system path of the address, if it has one.
    pub fn as_pathname(&self) -> (r: Option<&std::path::PathBuf>)
        ensures
            r == match *self {
                SocketAddr::Pathname(p) => Some(&p),
                _ => None,
            },
    {
        match self {
            SocketAddr::Pathname(p) => Some(p),
            _ => None,
        }
    }
}

} // verus!
