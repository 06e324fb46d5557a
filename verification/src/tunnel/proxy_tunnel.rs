use vstd::prelude::*;

use super::client::{ClientFlags, HTTPClient, HTTPStage, InternalState};
use super::heap::{TunnelHeap, TunnelId};
use super::socket::{HTTPSocket, Socket};
use super::stream_buffer::StreamBuffer;
use crate::error::Error;

verus! {

/// The TLS engine of a tunnel.
#[derive(Copy, Clone, Debug, PartialEq, Eq, Structural)]
pub struct SslWrapper {
    /// The TLS session, by its handle, once there is one.
    pub ssl: Option<u64>,
    /// The client that the engine's callbacks are handed.
    pub ctx: u64,
}

/// Why a TLS engine could not be made.
#[derive(Copy, Clone, Debug, PartialEq, Eq, Structural)]
pub enum InitError {
    OutOfMemory,
    InvalidOptions,
}

/// Why a TLS engine took no data.
#[derive(Copy, Clone, Debug, PartialEq, Eq, Structural)]
pub enum WriteDataError {
    ConnectionClosed,
    WantRead,
    WantWrite,
}

/// A call that the tunnel's TLS engine is owed.
#[derive(Copy, Clone, Debug, PartialEq, Eq)]
pub enum WrapperCall<'a> {
    Start,
    StartWithPayload(&'a [u8]),
    Shutdown { fast_shutdown: bool },
    Flush,
    ReceiveData(&'a [u8]),
    WriteData(&'a [u8]),
}

/// A TLS connection to a server, carried over a connection to a proxy.
pub struct ProxyTunnel {
    pub wrapper: Option<SslWrapper>,
    /// What the client is told when the tunnel goes down.
    pub shutdown_err: Error,
    pub socket: Socket,
    /// Encrypted bytes that the socket has not taken yet.
    pub write_buffer: StreamBuffer,
    pub did_have_handshaking_error: bool,
    pub established_with_reject_unauthorized: bool,
    pub ref_count: u32,
}

/// What a tunnel holds, with the waiting bytes as a sequence.
#[verifier::ext_equal]
pub struct TunnelView {
    pub wrapper: Option<SslWrapper>,
    pub shutdown_err: Error,
    pub socket: Socket,
    pub pending: Seq<u8>,
    pub did_have_handshaking_error: bool,
    pub established_with_reject_unauthorized: bool,
    pub ref_count: u32,
}

impl View for ProxyTunnel {
    type V = TunnelView;

    open spec fn view(&self) -> TunnelView {
        TunnelView {
            wrapper: self.wrapper,
            shutdown_err: self.shutdown_err,
            socket: self.socket,
            pending: self.write_buffer@,
            did_have_handshaking_error: self.did_have_handshaking_error,
            established_with_reject_unauthorized: self.established_with_reject_unauthorized,
            ref_count: self.ref_count,
        }
    }
}

impl TunnelView {
    /// A tunnel that has just been made: detached, without an engine, held once.
    pub open spec fn fresh() -> TunnelView {
        TunnelView {
            wrapper: None,
            shutdown_err: Error::ConnectionClosed,
            socket: Socket::Detached,
            pending: Seq::empty(),
            did_have_handshaking_error: false,
            established_with_reject_unauthorized: false,
            ref_count: 1,
        }
    }

    /// The TLS session, once there is one.
    pub open spec fn ssl(self) -> Option<u64> {
        match self.wrapper {
            Some(w) => w.ssl,
            None => None,
        }
    }

    /// The same tunnel with `n` references more (fewer, for a negative `n`).
    pub open spec fn with_refs(self, n: int) -> TunnelView {
        TunnelView { ref_count: (self.ref_count + n) as u32, ..self }
    }

    /// The engine's shutdown, owed only where there is an engine.
    pub open spec fn shutdown_call(self) -> Option<WrapperCall<'static>> {
        if self.wrapper is Some {
            Some(WrapperCall::Shutdown { fast_shutdown: true })
        } else {
            None
        }
    }
}

impl Default for ProxyTunnel {
    fn default() -> (r: Self)
        ensures
            r.wf(),
            r@ == TunnelView::fresh(),
    {
        ProxyTunnel {
            wrapper: None,
            shutdown_err: Error::ConnectionClosed,
            socket: Socket::Detached,
            write_buffer: StreamBuffer::new(),
            did_have_handshaking_error: false,
            established_with_reject_unauthorized: false,
            ref_count: 1,
        }
    }
}

impl ProxyTunnel {
    /// The waiting bytes are well kept.
    pub open spec fn wf(&self) -> bool {
        self.write_buffer.wf()
    }

    /// The TLS session, once there is one.
    pub fn wrapper_ssl(&self) -> (r: Option<u64>)
        ensures
            r == self@.ssl(),
    {
        match &self.wrapper {
            Some(w) => w.ssl,
            None => None,
        }
    }

    /// Takes one more reference.
    pub fn ref_(&mut self)
        requires
            old(self).ref_count < u32::MAX,
        ensures
            final(self)@ == old(self)@.with_refs(1),
            final(self).wf() == old(self).wf(),
    {
        self.ref_count = self.ref_count + 1;
    }

    /// Gives one reference back; `true` when it was the last one, and the tunnel
    /// is then to be destroyed.
    pub fn deref(&mut self) -> (last: bool)
        requires
            old(self).ref_count > 0,
        ensures
            final(self)@ == old(self)@.with_refs(-1),
            final(self).wf() == old(self).wf(),
            last == (final(self).ref_count == 0),
    {
        self.ref_count = self.ref_count - 1;
        self.ref_count == 0
    }

    /// Takes the tunnel down: `err` is what the client will be told, and the
    /// engine, where there is one, is shut down at once.
    pub fn close(&mut self, err: Error) -> (call: Option<WrapperCall<'static>>)
        ensures
            final(self)@ == (TunnelView { shutdown_err: err, ..old(self)@ }),
            final(self).wf() == old(self).wf(),
            call == old(self)@.shutdown_call(),
    {
        ProxyTunnel::close_raw(self, err)
    }

    /// [`Self::close`], for a tunnel that is not borrowed as a receiver.
    pub fn close_raw(this: &mut ProxyTunnel, err: Error) -> (call: Option<WrapperCall<'static>>)
        ensures
            final(this)@ == (TunnelView { shutdown_err: err, ..old(this)@ }),
            final(this).wf() == old(this).wf(),
            call == old(this)@.shutdown_call(),
    {
        this.shutdown_err = err;
        this.shutdown()
    }

    /// Shuts the engine down, where there is one, without naming an error.
    pub fn shutdown(&self) -> (call: Option<WrapperCall<'static>>)
        ensures
            call == self@.shutdown_call(),
    {
        match &self.wrapper {
            Some(_) => Some(WrapperCall::Shutdown { fast_shutdown: true }),
            None => None,
        }
    }

    /// The socket can take bytes again. Takes a reference for as long as the call
    /// lasts. `Some` names the socket that the waiting bytes are to be written to;
    /// either way [`Self::finish_writable`] is next.
    pub fn on_writable<const IS_SSL: bool>(&mut self, socket: HTTPSocket<IS_SSL>) -> (target:
        Option<Socket>)
        requires
            old(self).wf(),
            old(self).ref_count < u32::MAX,
        ensures
            final(self).wf(),
            final(self)@ == old(self)@.with_refs(1),
            target == if old(self)@.pending.len() > 0 {
                Some(Socket::of(IS_SSL, socket.handle))
            } else {
                None
            },
    {
        self.ref_();
        if self.write_buffer.is_not_empty() {
            Some(Socket::from_generic::<IS_SSL>(socket))
        } else {
            None
        }
    }

    /// The socket took the first `written` waiting bytes (`None`: nothing was
    /// offered). The engine, where there is one, is owed a flush; the reference
    /// that [`Self::on_writable`] took is still to be given back.
    pub fn finish_writable(&mut self, written: Option<i32>) -> (call: Option<
        WrapperCall<'static>,
    >)
        requires
            old(self).wf(),
            written matches Some(n) ==> 0 <= n <= old(self)@.pending.len(),
        ensures
            final(self).wf(),
            final(self)@ == (TunnelView {
                pending: match written {
                    Some(n) => after_writable(old(self)@.pending, n as int),
                    None => old(self)@.pending,
                },
                ..old(self)@
            }),
            call == if old(self)@.wrapper is Some {
                Some(WrapperCall::Flush)
            } else {
                None
            },
    {
        match written {
            Some(n) => {
                let n: usize = n as usize;
                if n == self.write_buffer.size() {
                    self.write_buffer.reset();
                    assert(self@.pending =~= old(self)@.pending.skip(n as int));
                } else {
                    self.write_buffer.wrote(n);
                }
            },
            None => {},
        }
        match &self.wrapper {
            Some(_) => Some(WrapperCall::Flush),
            None => None,
        }
    }

    /// Bytes came in over the socket. Takes a reference, which is to be given back
    /// once the engine, where there is one, has taken them.
    pub fn receive<'a>(&mut self, buf: &'a [u8]) -> (call: Option<WrapperCall<'a>>)
        requires
            old(self).ref_count < u32::MAX,
        ensures
            final(self)@ == old(self)@.with_refs(1),
            final(self).wf() == old(self).wf(),
            call == if old(self)@.wrapper is Some {
                Some(WrapperCall::ReceiveData(buf))
            } else {
                None
            },
    {
        self.ref_();
        match &self.wrapper {
            Some(_) => Some(WrapperCall::ReceiveData(buf)),
            None => None,
        }
    }

    /// Bytes are to go out through the tunnel: the engine is to take them. What it
    /// answers becomes the caller's answer by [`Self::write_result`].
    pub fn write<'a>(&self, buf: &'a [u8]) -> (r: Result<WrapperCall<'a>, Error>)
        ensures
            r == if self@.wrapper is Some {
                Ok(WrapperCall::WriteData(buf))
            } else {
                Err(Error::ConnectionClosed)
            },
    {
        match &self.wrapper {
            Some(_) => Ok(WrapperCall::WriteData(buf)),
            None => Err(Error::ConnectionClosed),
        }
    }

    /// What the engine's answer to a write means to the caller of the tunnel.
    pub fn write_result(answer: Result<usize, WriteDataError>) -> (r: Result<usize, Error>)
        ensures
            r == match answer {
                Ok(n) => Ok(n),
                Err(WriteDataError::ConnectionClosed) => Err(Error::ConnectionClosed),
                Err(WriteDataError::WantRead) => Err(Error::WantRead),
                Err(WriteDataError::WantWrite) => Err(Error::WantWrite),
            },
    {
        match answer {
            Ok(n) => Ok(n),
            Err(e) => Err(
                match e {
                    WriteDataError::ConnectionClosed => Error::ConnectionClosed,
                    WriteDataError::WantRead => Error::WantRead,
                    WriteDataError::WantWrite => Error::WantWrite,
                },
            ),
        }
    }

    /// Lets go of the socket.
    pub fn detach_socket(&mut self)
        ensures
            final(self)@ == (TunnelView { socket: Socket::Detached, ..old(self)@ }),
            final(self).wf() == old(self).wf(),
    {
        self.socket = Socket::Detached;
    }

    /// Lets go of the socket and gives one reference back; `true` when it was the
    /// last one, and the tunnel is then to be destroyed.
    pub fn detach_and_deref(&mut self) -> (last: bool)
        requires
            old(self).ref_count > 0,
        ensures
            final(self)@ == (TunnelView { socket: Socket::Detached, ..old(self)@ }).with_refs(-1),
            final(self).wf() == old(self).wf(),
            last == (final(self).ref_count == 0),
    {
        self.detach_socket();
        self.deref()
    }

    /// The tunnel leaves `client` and waits for another one: it lets go of the
    /// socket and remembers how far the client's handshake could be trusted.
    pub fn detach_owner(&mut self, client: &HTTPClient)
        ensures
            final(self)@ == old(self)@.left_by(client),
            final(self).wf() == old(self).wf(),
    {
        self.socket = Socket::Detached;
        self.did_have_handshaking_error = client.flags.did_have_handshaking_error;
        self.established_with_reject_unauthorized = self.established_with_reject_unauthorized
            || client.flags.reject_unauthorized;
    }

    /// A waiting tunnel, known as `id`, is taken over by `client` over `socket`;
    /// the caller's reference becomes the client's. Returned is the tunnel that the
    /// client held before, whose reference is to be given back.
    pub fn adopt<const IS_SSL: bool>(
        &mut self,
        id: TunnelId,
        client: &mut HTTPClient,
        socket: HTTPSocket<IS_SSL>,
    ) -> (replaced: Option<TunnelId>)
        ensures
            final(self).wf(),
            final(self)@ == old(self)@.taken_by(old(client).id, Socket::of(IS_SSL, socket.handle)),
            *final(client) == adopting(*old(client), id, old(self)@),
            replaced == old(client).proxy_tunnel,
    {
        self.write_buffer.reset();
        if let Some(wrapper) = &mut self.wrapper {
            wrapper.ctx = client.id;
        }
        self.socket = Socket::from_generic::<IS_SSL>(socket);
        let replaced = client.proxy_tunnel;
        client.proxy_tunnel = Some(id);
        client.flags.proxy_tunneling = false;
        client.flags.did_have_handshaking_error = self.did_have_handshaking_error;
        client.state.request_stage = HTTPStage::ProxyHeaders;
        client.state.response_stage = HTTPStage::ProxyHeaders;
        client.state.request_sent_len = 0;
        replaced
    }

    /// Opens a tunnel for `client` over `socket`. `engine` is what came of making a
    /// TLS engine for it: the TLS session, or why there is none. On success the
    /// client holds the one reference to the tunnel, and the engine is owed the
    /// call that starts it; on failure nothing is left of the tunnel.
    ///
    /// A failure for want of memory ends the process and does not come here.
    pub fn start<'a, const IS_SSL: bool>(
        client: &mut HTTPClient,
        tunnels: &mut TunnelHeap,
        socket: HTTPSocket<IS_SSL>,
        engine: Result<Option<u64>, InitError>,
        start_payload: &'a [u8],
    ) -> (step: StartStep<'a>)
        requires
            old(tunnels).wf(),
            engine != Err::<Option<u64>, InitError>(InitError::OutOfMemory),
        ensures
            final(tunnels).wf(),
            match engine {
                Ok(ssl) => {
                    &&& step matches StartStep::Started { tunnel, replaced, call }
                    &&& !old(tunnels)@.contains_key(tunnel)
                    &&& final(tunnels)@ == old(tunnels)@.insert(
                        tunnel,
                        TunnelView {
                            wrapper: Some(SslWrapper { ssl, ctx: old(client).id }),
                            socket: Socket::of(IS_SSL, socket.handle),
                            ..TunnelView::fresh()
                        },
                    )
                    &&& *final(client) == HTTPClient {
                        proxy_tunnel: Some(tunnel),
                        ..*old(client)
                    }
                    &&& replaced == old(client).proxy_tunnel
                    &&& call == if start_payload@.len() > 0 {
                        WrapperCall::StartWithPayload(start_payload)
                    } else {
                        WrapperCall::Start
                    }
                },
                Err(_) => {
                    &&& step == StartStep::Failed {
                        err: Error::ConnectionRefused,
                        socket: Socket::of(IS_SSL, socket.handle),
                    }
                    &&& final(tunnels)@ == old(tunnels)@
                    &&& *final(client) == *old(client)
                },
            },
    {
        let mut tunnel = ProxyTunnel::default();
        match engine {
            Ok(ssl) => {
                tunnel.wrapper = Some(SslWrapper { ssl, ctx: client.id });
                tunnel.socket = Socket::from_generic::<IS_SSL>(socket);
                let id: TunnelId = tunnels.insert(tunnel);
                let replaced = client.proxy_tunnel;
                client.proxy_tunnel = Some(id);
                let call = if start_payload.len() > 0 {
                    WrapperCall::StartWithPayload(start_payload)
                } else {
                    WrapperCall::Start
                };
                StartStep::Started { tunnel: id, replaced, call }
            },
            Err(_) => {
                let last = tunnel.detach_and_deref();
                assert(last);
                StartStep::Failed {
                    err: Error::ConnectionRefused,
                    socket: Socket::from_generic::<IS_SSL>(socket),
                }
            },
        }
    }
}

/// What comes of opening a tunnel.
#[derive(Copy, Clone, Debug, PartialEq, Eq)]
pub enum StartStep<'a> {
    /// `replaced` is the tunnel that the client held before, whose reference is to
    /// be given back; the new tunnel's engine is owed `call`.
    Started { tunnel: TunnelId, replaced: Option<TunnelId>, call: WrapperCall<'a> },
    /// The client's request is to fail with `err`, and `socket` to be closed.
    Failed { err: Error, socket: Socket },
}

/// The bytes that wait once a socket took the first `written` of those in `pending`.
pub open spec fn after_writable(pending: Seq<u8>, written: int) -> Seq<u8> {
    pending.skip(written)
}

impl TunnelView {
    /// The tunnel once `client` has left it to wait for another client.
    pub open spec fn left_by(self, client: &HTTPClient) -> TunnelView {
        TunnelView {
            socket: Socket::Detached,
            did_have_handshaking_error: client.flags.did_have_handshaking_error,
            established_with_reject_unauthorized: self.established_with_reject_unauthorized
                || client.flags.reject_unauthorized,
            ..self
        }
    }

    /// The tunnel once the client `ctx` has taken it over: nothing waits to be sent,
    /// and the engine calls the new client back.
    pub open spec fn taken_by(self, ctx: u64, socket: Socket) -> TunnelView {
        TunnelView {
            wrapper: match self.wrapper {
                Some(w) => Some(SslWrapper { ctx, ..w }),
                None => None,
            },
            socket,
            pending: Seq::empty(),
            ..self
        }
    }
}

/// The client once it has taken over the tunnel `id`: its request starts over at
/// the headers, inside a tunnel whose handshake is already behind it.
pub open spec fn adopting(client: HTTPClient, id: TunnelId, tunnel: TunnelView) -> HTTPClient {
    HTTPClient {
        proxy_tunnel: Some(id),
        flags: ClientFlags {
            proxy_tunneling: false,
            did_have_handshaking_error: tunnel.did_have_handshaking_error,
            ..client.flags
        },
        state: InternalState {
            request_stage: HTTPStage::ProxyHeaders,
            response_stage: HTTPStage::ProxyHeaders,
            request_sent_len: 0,
            ..client.state
        },
        ..client
    }
}

} // verus!
