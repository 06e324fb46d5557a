use vstd::prelude::*;

verus! {

/// Why a request, a tunnel or a connection attempt failed.
#[derive(Copy, Clone, Debug, PartialEq, Eq, Structural)]
pub enum Error {
    ConnectionClosed,
    ConnectionRefused,
    UnexpectedData,
    WantRead,
    WantWrite,
    FailedToOpenSocket,
    UnsupportedProxyProtocol,
    /// The peer's certificate was rejected; the number is the verifier's.
    Certificate(i32),
    /// An error that the HTTP client raised by itself, by its code.
    Client(u16),
}

} // verus!
