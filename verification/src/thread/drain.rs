//! What the network thread does each time its loop comes round.

use vstd::prelude::*;

use crate::tunnel::heap::{TunnelHeap, TunnelId};
use crate::tunnel::proxy_tunnel::TunnelView;

use super::abort_tracker::AnySocket;
use super::http_thread::{
    DrainMessage, HttpThread, ShutdownMessage, ThreadView, WriteMessage, WriteMessageType,
};

verus! {

/// Whom a socket belongs to.
#[derive(Copy, Clone, Debug, PartialEq, Eq, Structural)]
pub enum Tagged {
    /// One request, by the handle of its client.
    Client(u64),
    /// A session that several requests share, by its handle.
    Session(u64),
    /// Nobody.
    Other,
}

/// How far a round has come.
#[derive(Copy, Clone, Debug, PartialEq, Eq, Structural)]
pub enum DrainPhase {
    ResponseBodyDrains,
    Writes,
    Shutdowns,
    ResolvedConnects,
    ProxyDerefs,
    Tasks,
}

/// What is to be done next in a round.
#[derive(Debug, PartialEq, Eq)]
pub enum DrainAction {
    /// Handle each message with `drain_response_body`.
    ResponseBodyDrains(Vec<DrainMessage>),
    /// Handle each message with `write_request`.
    Writes(Vec<WriteMessage>),
    /// Handle each message with `shut_down`.
    Shutdowns(Vec<ShutdownMessage>),
    /// Go on with the connects whose address has been found.
    ResolvedConnects,
    /// Give the queued references back, with `drain_proxy_derefs`.
    ProxyDerefs,
    /// Start requests, with `admit_tasks`; that ends the round.
    Tasks,
}

/// What a request that is aborted calls for.
#[derive(Copy, Clone, Debug, PartialEq, Eq, Structural)]
pub enum ShutdownStep {
    /// Its socket, to be treated by `socket_shutdown`.
    Socket(AnySocket),
    /// It has none: see `abort_without_socket`.
    NoSocket,
}

/// What becomes of the socket of a request that is aborted.
#[derive(Copy, Clone, Debug, PartialEq, Eq, Structural)]
pub enum SocketShutdown {
    /// The client closes it and fails the request.
    CloseAndAbort(u64),
    /// The session drops that one request.
    AbortByHttpId(u64),
    /// It is closed, as after a failure.
    Close,
}

/// Who might know a request that is aborted and has no socket.
#[derive(Copy, Clone, Debug, PartialEq, Eq, Structural)]
pub enum AbortQuery {
    /// A context, by its handle, for which it might wait.
    Context(u64),
    /// The HTTP/3 client.
    Http3,
    /// Nobody is left: it is among the requests that have not started.
    NotStarted,
}

/// Where the bytes of a request go.
#[derive(Copy, Clone, Debug, PartialEq, Eq, Structural)]
pub enum WriteStep {
    /// To its socket, as `socket_write` says.
    Socket(AnySocket),
    /// To the HTTP/3 client.
    Http3 { ended: bool },
}

/// What is written to a socket.
#[derive(Copy, Clone, Debug, PartialEq, Eq, Structural)]
pub enum SocketWrite {
    Nothing,
    /// The client notes whether its body has ended, and flushes it.
    FlushStream { client: u64, ended: bool },
    /// The session sends the body of that one request.
    StreamBody { session: u64, ended: bool },
}

/// Who reads the rest of a response body.
#[derive(Copy, Clone, Debug, PartialEq, Eq, Structural)]
pub enum SocketDrain {
    Nothing,
    Client(u64),
    Session(u64),
}

/// What becomes of a socket whose request is aborted.
pub fn socket_shutdown(tagged: Tagged) -> (r: SocketShutdown)
    ensures
        r == match tagged {
            Tagged::Client(client) => SocketShutdown::CloseAndAbort(client),
            Tagged::Session(session) => SocketShutdown::AbortByHttpId(session),
            Tagged::Other => SocketShutdown::Close,
        },
{
    match tagged {
        Tagged::Client(client) => SocketShutdown::CloseAndAbort(client),
        Tagged::Session(session) => SocketShutdown::AbortByHttpId(session),
        Tagged::Other => SocketShutdown::Close,
    }
}

/// What is written to the socket of a request: nothing once it is closed or shut down,
/// and nothing for a client whose body is no stream.
pub fn socket_write(
    is_closed: bool,
    is_shutdown: bool,
    tagged: Tagged,
    body_is_stream: bool,
    kind: WriteMessageType,
) -> (r: SocketWrite)
    ensures
        r == if is_closed || is_shutdown {
            SocketWrite::Nothing
        } else {
            let ended = kind == WriteMessageType::End;
            match tagged {
                Tagged::Client(client) => if body_is_stream {
                    SocketWrite::FlushStream { client, ended }
                } else {
                    SocketWrite::Nothing
                },
                Tagged::Session(session) => SocketWrite::StreamBody { session, ended },
                Tagged::Other => SocketWrite::Nothing,
            }
        },
{
    if is_closed || is_shutdown {
        return SocketWrite::Nothing;
    }
    let ended = kind == WriteMessageType::End;
    match tagged {
        Tagged::Client(client) => if body_is_stream {
            SocketWrite::FlushStream { client, ended }
        } else {
            SocketWrite::Nothing
        },
        Tagged::Session(session) => SocketWrite::StreamBody { session, ended },
        Tagged::Other => SocketWrite::Nothing,
    }
}

/// Who reads the rest of a response body from a socket.
pub fn socket_drain(tagged: Tagged) -> (r: SocketDrain)
    ensures
        r == match tagged {
            Tagged::Client(client) => SocketDrain::Client(client),
            Tagged::Session(session) => SocketDrain::Session(session),
            Tagged::Other => SocketDrain::Nothing,
        },
{
    match tagged {
        Tagged::Client(client) => SocketDrain::Client(client),
        Tagged::Session(session) => SocketDrain::Session(session),
        Tagged::Other => SocketDrain::Nothing,
    }
}

/// How often a tunnel is among those of which a reference is to be given back.
pub open spec fn owed(ids: Seq<TunnelId>, id: TunnelId) -> nat
    decreases ids.len(),
{
    if ids.len() == 0 {
        0
    } else {
        owed(ids.drop_last(), id) + if ids.last() == id {
            1nat
        } else {
            0nat
        }
    }
}

/// Every reference that is to be given back is held.
pub open spec fn owed_are_held(tunnels: Map<TunnelId, TunnelView>, ids: Seq<TunnelId>) -> bool {
    forall|i: int|
        0 <= i < ids.len() ==> tunnels.contains_key(#[trigger] ids[i]) && owed(ids, ids[i])
            <= tunnels[ids[i]].ref_count
}

/// The tunnels once those references have been given back: one that nobody holds any
/// more is gone.
pub open spec fn repaid(tunnels: Map<TunnelId, TunnelView>, ids: Seq<TunnelId>) -> Map<
    TunnelId,
    TunnelView,
> {
    Map::new(
        |id: TunnelId|
            tunnels.contains_key(id) && (owed(ids, id) == 0 || owed(ids, id)
                < tunnels[id].ref_count),
        |id: TunnelId| tunnels[id].with_refs(-(owed(ids, id) as int)),
    )
}

proof fn lemma_owed_grows(ids: Seq<TunnelId>, i: int, id: TunnelId)
    requires
        0 <= i <= ids.len(),
    ensures
        owed(ids.take(i), id) <= owed(ids, id),
    decreases ids.len(),
{
    if i < ids.len() {
        lemma_owed_grows(ids.drop_last(), i, id);
        assert(ids.drop_last().take(i) =~= ids.take(i));
    } else {
        assert(ids.take(i) =~= ids);
    }
}

impl HttpThread {
    /// The next thing to do in a round, and how far the round has come then. Messages
    /// of one sort are taken until none is left, so also those that came meanwhile.
    pub fn drain_events(&mut self, phase: DrainPhase) -> (r: (DrainAction, DrainPhase))
        requires
            old(self).wf(),
        ensures
            final(self).wf(),
            match phase {
                DrainPhase::ResponseBodyDrains => {
                    &&& r.0 matches DrainAction::ResponseBodyDrains(batch)
                    &&& batch@ == old(self)@.queued_response_body_drains
                    &&& r.1 == if batch@.len() > 0 {
                        DrainPhase::ResponseBodyDrains
                    } else {
                        DrainPhase::Writes
                    }
                    &&& final(self)@ == (ThreadView {
                        queued_response_body_drains: Seq::empty(),
                        ..old(self)@
                    })
                },
                DrainPhase::Writes => {
                    &&& r.0 matches DrainAction::Writes(batch)
                    &&& batch@ == old(self)@.queued_writes
                    &&& r.1 == if batch@.len() > 0 {
                        DrainPhase::Writes
                    } else {
                        DrainPhase::Shutdowns
                    }
                    &&& final(self)@ == (ThreadView { queued_writes: Seq::empty(), ..old(self)@ })
                },
                DrainPhase::Shutdowns => {
                    &&& r.0 matches DrainAction::Shutdowns(batch)
                    &&& batch@ == old(self)@.queued_shutdowns
                    &&& r.1 == if batch@.len() > 0 {
                        DrainPhase::Shutdowns
                    } else {
                        DrainPhase::ResolvedConnects
                    }
                    &&& final(self)@ == (ThreadView {
                        queued_shutdowns: Seq::empty(),
                        ..old(self)@
                    })
                },
                DrainPhase::ResolvedConnects => {
                    &&& r.0 is ResolvedConnects
                    &&& r.1 == DrainPhase::ProxyDerefs
                    &&& final(self)@ == old(self)@
                },
                DrainPhase::ProxyDerefs => {
                    &&& r.0 is ProxyDerefs
                    &&& r.1 == DrainPhase::Tasks
                    &&& final(self)@ == old(self)@
                },
                DrainPhase::Tasks => {
                    &&& r.0 is Tasks
                    &&& r.1 == DrainPhase::ResponseBodyDrains
                    &&& final(self)@ == old(self)@
                },
            },
    {
        match phase {
            DrainPhase::ResponseBodyDrains => {
                let mut batch: Vec<DrainMessage> = Vec::new();
                core::mem::swap(&mut batch, &mut self.queued_response_body_drains);
                let next = if batch.len() > 0 {
                    DrainPhase::ResponseBodyDrains
                } else {
                    DrainPhase::Writes
                };
                (DrainAction::ResponseBodyDrains(batch), next)
            },
            DrainPhase::Writes => {
                let mut batch: Vec<WriteMessage> = Vec::new();
                core::mem::swap(&mut batch, &mut self.queued_writes);
                let next = if batch.len() > 0 {
                    DrainPhase::Writes
                } else {
                    DrainPhase::Shutdowns
                };
                (DrainAction::Writes(batch), next)
            },
            DrainPhase::Shutdowns => {
                let mut batch: Vec<ShutdownMessage> = Vec::new();
                core::mem::swap(&mut batch, &mut self.queued_shutdowns);
                let next = if batch.len() > 0 {
                    DrainPhase::Shutdowns
                } else {
                    DrainPhase::ResolvedConnects
                };
                (DrainAction::Shutdowns(batch), next)
            },
            DrainPhase::ResolvedConnects => (
                DrainAction::ResolvedConnects,
                DrainPhase::ProxyDerefs,
            ),
            DrainPhase::ProxyDerefs => (DrainAction::ProxyDerefs, DrainPhase::Tasks),
            DrainPhase::Tasks => (DrainAction::Tasks, DrainPhase::ResponseBodyDrains),
        }
    }

    /// The socket that the rest of a response body is read from.
    pub fn drain_response_body(&self, message: DrainMessage) -> (r: Option<AnySocket>)
        requires
            self.wf(),
        ensures
            r == if self@.sockets.contains_key(message.async_http_id) {
                Some(self@.sockets[message.async_http_id])
            } else {
                None
            },
    {
        self.abort_tracker.get(message.async_http_id)
    }

    /// Where the bytes of a request go.
    pub fn write_request(&self, message: WriteMessage) -> (r: WriteStep)
        requires
            self.wf(),
        ensures
            r == if self@.sockets.contains_key(message.async_http_id) {
                WriteStep::Socket(self@.sockets[message.async_http_id])
            } else {
                WriteStep::Http3 { ended: message.kind == WriteMessageType::End }
            },
    {
        match self.abort_tracker.get(message.async_http_id) {
            Some(socket) => WriteStep::Socket(socket),
            None => WriteStep::Http3 { ended: message.kind == WriteMessageType::End },
        }
    }

    /// A request is aborted: its socket, which is no longer tracked.
    pub fn shut_down(&mut self, message: ShutdownMessage) -> (r: ShutdownStep)
        requires
            old(self).wf(),
        ensures
            final(self).wf(),
            r == if old(self)@.sockets.contains_key(message.async_http_id) {
                ShutdownStep::Socket(old(self)@.sockets[message.async_http_id])
            } else {
                ShutdownStep::NoSocket
            },
            final(self)@ == (ThreadView {
                sockets: old(self)@.sockets.remove(message.async_http_id),
                ..old(self)@
            }),
    {
        match self.abort_tracker.remove(message.async_http_id) {
            Some(socket) => ShutdownStep::Socket(socket),
            None => ShutdownStep::NoSocket,
        }
    }

    /// Whom to ask about a request that is aborted and has no socket, once `asked`
    /// others did not know it: the default TLS context, then the custom ones, then the
    /// HTTP/3 client. One that nobody knows has not started; that is noted.
    pub fn abort_without_socket(&mut self, asked: usize) -> (r: AbortQuery)
        requires
            old(self).wf(),
        ensures
            final(self).wf(),
            r == if asked == 0 {
                AbortQuery::Context(old(self)@.https_context)
            } else if asked <= old(self)@.ssl_contexts.len() {
                AbortQuery::Context(old(self)@.ssl_contexts[asked - 1].ctx)
            } else if asked == old(self)@.ssl_contexts.len() + 1 {
                AbortQuery::Http3
            } else {
                AbortQuery::NotStarted
            },
            final(self)@ == (ThreadView {
                has_pending_queued_abort: old(self)@.has_pending_queued_abort
                    || r == AbortQuery::NotStarted,
                ..old(self)@
            }),
    {
        if asked == 0 {
            return AbortQuery::Context(self.https_context);
        }
        let custom = self.ssl_contexts.count();
        if asked <= custom {
            return AbortQuery::Context(self.ssl_contexts.get(asked - 1).ctx);
        }
        if asked - 1 == custom {
            return AbortQuery::Http3;
        }
        self.has_pending_queued_abort = true;
        AbortQuery::NotStarted
    }

    /// Whether every reference that is to be given back is held.
    pub fn proxy_derefs_are_held(&self, tunnels: &TunnelHeap) -> (r: bool)
        requires
            tunnels.wf(),
        ensures
            r == owed_are_held(tunnels@, self@.queued_proxy_derefs),
    {
        let ids = &self.queued_threadlocal_proxy_derefs;
        let mut i: usize = 0;
        while i < ids.len()
            invariant
                i <= ids.len(),
                tunnels.wf(),
                ids@ == self@.queued_proxy_derefs,
                forall|k: int|
                    0 <= k < i ==> tunnels@.contains_key(#[trigger] ids@[k]) && owed(ids@, ids@[k])
                        <= tunnels@[ids@[k]].ref_count,
            decreases ids.len() - i,
        {
            let id = ids[i];
            let mut count: usize = 0;
            let mut j: usize = 0;
            while j < ids.len()
                invariant
                    j <= ids.len(),
                    count <= j,
                    count == owed(ids@.take(j as int), id),
                decreases ids.len() - j,
            {
                proof {
                    assert(ids@.take(j + 1).drop_last() =~= ids@.take(j as int));
                }
                if ids[j] == id {
                    count = count + 1;
                }
                j = j + 1;
            }
            proof {
                assert(ids@.take(j as int) =~= ids@);
                assert(ids@[i as int] == id);
            }
            if !tunnels.contains(id) {
                return false;
            }
            if count > tunnels.get(id).ref_count as usize {
                return false;
            }
            i = i + 1;
        }
        true
    }

    /// Gives the queued references back.
    pub fn drain_proxy_derefs(&mut self, tunnels: &mut TunnelHeap)
        requires
            old(self).wf(),
            old(tunnels).wf(),
            owed_are_held(old(tunnels)@, old(self)@.queued_proxy_derefs),
        ensures
            final(self).wf(),
            final(self)@ == (ThreadView { queued_proxy_derefs: Seq::empty(), ..old(self)@ }),
            final(tunnels).wf(),
            final(tunnels)@ == repaid(old(tunnels)@, old(self)@.queued_proxy_derefs),
    {
        let mut ids: Vec<TunnelId> = Vec::new();
        core::mem::swap(&mut ids, &mut self.queued_threadlocal_proxy_derefs);
        let ghost before = tunnels@;
        let mut i: usize = 0;
        proof {
            assert(repaid(before, ids@.take(0)) =~= before);
        }
        while i < ids.len()
            invariant
                i <= ids.len(),
                tunnels.wf(),
                owed_are_held(before, ids@),
                tunnels@ == repaid(before, ids@.take(i as int)),
            decreases ids.len() - i,
        {
            let id = ids[i];
            proof {
                assert(before.contains_key(ids@[i as int]));
                lemma_owed_grows(ids@, i + 1, id);
                assert(ids@.take(i + 1).drop_last() =~= ids@.take(i as int));
                assert(owed(ids@.take(i + 1), id) == owed(ids@.take(i as int), id) + 1);
            }
            tunnels.deref(id);
            proof {
                let next = repaid(before, ids@.take(i + 1));
                assert forall|other: TunnelId| other != id implies #[trigger] owed(
                    ids@.take(i + 1),
                    other,
                ) == owed(ids@.take(i as int), other) by {}
                assert(tunnels@ =~= next);
            }
            i = i + 1;
        }
        assert(ids@.take(i as int) =~= ids@);
    }
}

} // verus!
