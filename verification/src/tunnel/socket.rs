use vstd::prelude::*;

verus! {

/// The handle of a connected socket whose transport is known at compile time.
#[derive(Copy, Clone, Debug)]
pub struct HTTPSocket<const IS_SSL: bool> {
    pub handle: u64,
}

/// The socket under a tunnel: plain TCP, TLS, or none (the tunnel is detached).
#[derive(Copy, Clone, Debug, PartialEq, Eq, Structural)]
pub enum Socket {
    Tcp(u64),
    Ssl(u64),
    Detached,
}

impl Socket {
    /// The socket that `from_generic` makes of a handle.
    pub open spec fn of(is_ssl: bool, handle: u64) -> Socket {
        if is_ssl {
            Socket::Ssl(handle)
        } else {
            Socket::Tcp(handle)
        }
    }

    /// Forgets the compile-time transport of `socket`.
    pub fn from_generic<const IS_SSL: bool>(socket: HTTPSocket<IS_SSL>) -> (r: Socket)
        ensures
            r == Socket::of(IS_SSL, socket.handle),
    {
        if IS_SSL {
            Socket::Ssl(socket.handle)
        } else {
            Socket::Tcp(socket.handle)
        }
    }

    /// Whether there is no socket.
    pub fn is_detached(&self) -> (r: bool)
        ensures
            r == (*self is Detached),
    {
        match self {
            Socket::Detached => true,
            _ => false,
        }
    }
}

/// The default contexts of the network thread, by their handles.
#[derive(Copy, Clone, Debug, PartialEq, Eq, Structural)]
pub struct Contexts {
    pub http: u64,
    pub https: u64,
}

impl Contexts {
    /// The context that goes with a socket: the TLS one with a TLS socket and the plain
    /// one with a plain socket.
    pub open spec fn of(self, socket: Socket) -> Option<u64> {
        match socket {
            Socket::Ssl(_) => Some(self.https),
            Socket::Tcp(_) => Some(self.http),
            Socket::Detached => None,
        }
    }

    /// The context that goes with a socket, where there is a socket.
    pub fn context_of(&self, socket: Socket) -> (r: Option<u64>)
        ensures
            r == self.of(socket),
    {
        match socket {
            Socket::Ssl(_) => Some(self.https),
            Socket::Tcp(_) => Some(self.http),
            Socket::Detached => None,
        }
    }
}

} // verus!
