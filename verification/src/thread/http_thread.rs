//! The state of the network thread and what it decides.

use std::collections::VecDeque;

use vstd::prelude::*;

use crate::tunnel::heap::TunnelId;
use crate::tunnel::socket::Contexts;

use super::abort_tracker::{AbortTracker, AnySocket};
use super::body_buffer::{
    get_request_body_send_buffer, kept_after, lends, HeapRequestBodyBuffer, RequestBodyBuffer,
    REQUEST_BODY_SEND_STACK_BUFFER_SIZE,
};
use super::connect::{ConnectRequest, ConnectStep, ConnectStepView, Connecting};
use super::ssl_cache::{
    has_config, inserted, swept, touched, SslContextCache, SslContextCacheEntry,
};
use super::startup::{InitError, InitOpts};
use crate::error::Error;

verus! {

/// Names a request.
pub type TaskId = u64;

/// Whether a request writes more, or has written all.
#[derive(Copy, Clone, Debug, PartialEq, Eq, Structural)]
pub enum WriteMessageType {
    Data,
    End,
}

/// A request has bytes to write.
#[derive(Copy, Clone, Debug, PartialEq, Eq, Structural)]
pub struct WriteMessage {
    pub async_http_id: u32,
    pub kind: WriteMessageType,
}

/// A request wants the rest of its response body.
#[derive(Copy, Clone, Debug, PartialEq, Eq, Structural)]
pub struct DrainMessage {
    pub async_http_id: u32,
}

/// A request is aborted.
#[derive(Copy, Clone, Debug, PartialEq, Eq, Structural)]
pub struct ShutdownMessage {
    pub async_http_id: u32,
}

/// What decompresses response bodies.
pub struct LibdeflateState {
    /// The decompressor, by its handle.
    pub decompressor: u64,
    pub shared_buffer: [u8; 524288],
}

/// The network thread.
pub struct HttpThread {
    /// The event loop, by its handle.
    pub loop_: u64,
    /// The loop of the sockets within it, by its handle.
    pub uws_loop: u64,
    /// The default contexts, by their handles.
    pub http_context: u64,
    pub https_context: u64,
    /// How to set the default TLS context up, until that is done.
    pub lazy_https_init: Option<InitOpts>,
    /// Requests that nobody has looked at yet, in the order in which they came.
    pub queued_tasks: VecDeque<TaskId>,
    /// Requests that wait for others to end.
    pub deferred_tasks: Vec<TaskId>,
    /// A request was aborted before it had a socket.
    pub has_pending_queued_abort: bool,
    pub queued_shutdowns: Vec<ShutdownMessage>,
    pub queued_writes: Vec<WriteMessage>,
    pub queued_response_body_drains: Vec<DrainMessage>,
    /// Tunnels of which a reference is to be given back.
    pub queued_threadlocal_proxy_derefs: Vec<TunnelId>,
    /// The loop runs, so it can be woken.
    pub has_awoken: bool,
    pub lazy_libdeflater: Option<Box<LibdeflateState>>,
    pub lazy_request_body_buffer: Option<Box<HeapRequestBodyBuffer>>,
    /// The TLS contexts that were made for single configurations.
    pub ssl_contexts: SslContextCache,
    /// The sockets of running requests.
    pub abort_tracker: AbortTracker,
}

/// The state of the network thread.
pub ghost struct ThreadView {
    pub loop_: u64,
    pub uws_loop: u64,
    pub http_context: u64,
    pub https_context: u64,
    pub lazy_https_init: Option<InitOpts>,
    pub queued_tasks: Seq<TaskId>,
    pub deferred_tasks: Seq<TaskId>,
    pub has_pending_queued_abort: bool,
    pub queued_shutdowns: Seq<ShutdownMessage>,
    pub queued_writes: Seq<WriteMessage>,
    pub queued_response_body_drains: Seq<DrainMessage>,
    pub queued_proxy_derefs: Seq<TunnelId>,
    pub has_awoken: bool,
    pub libdeflater: Option<LibdeflateState>,
    pub request_body_buffer: Option<Box<HeapRequestBodyBuffer>>,
    pub ssl_contexts: Seq<SslContextCacheEntry>,
    pub sockets: Map<u32, AnySocket>,
}

impl View for HttpThread {
    type V = ThreadView;

    open spec fn view(&self) -> ThreadView {
        ThreadView {
            loop_: self.loop_,
            uws_loop: self.uws_loop,
            http_context: self.http_context,
            https_context: self.https_context,
            lazy_https_init: self.lazy_https_init,
            queued_tasks: self.queued_tasks@,
            deferred_tasks: self.deferred_tasks@,
            has_pending_queued_abort: self.has_pending_queued_abort,
            queued_shutdowns: self.queued_shutdowns@,
            queued_writes: self.queued_writes@,
            queued_response_body_drains: self.queued_response_body_drains@,
            queued_proxy_derefs: self.queued_threadlocal_proxy_derefs@,
            has_awoken: self.has_awoken,
            libdeflater: match self.lazy_libdeflater {
                Some(state) => Some(*state),
                None => None,
            },
            request_body_buffer: self.lazy_request_body_buffer,
            ssl_contexts: self.ssl_contexts@,
            sockets: self.abort_tracker@,
        }
    }
}

impl HttpThread {
    pub open spec fn wf(&self) -> bool {
        self.ssl_contexts.wf() && self.abort_tracker.wf()
    }

    /// A thread that has not started yet.
    pub fn new(http_context: u64, https_context: u64) -> (r: HttpThread)
        ensures
            r.wf(),
            r@ == (ThreadView {
                loop_: 0,
                uws_loop: 0,
                http_context,
                https_context,
                lazy_https_init: None,
                queued_tasks: Seq::empty(),
                deferred_tasks: Seq::empty(),
                has_pending_queued_abort: false,
                queued_shutdowns: Seq::empty(),
                queued_writes: Seq::empty(),
                queued_response_body_drains: Seq::empty(),
                queued_proxy_derefs: Seq::empty(),
                has_awoken: false,
                libdeflater: None,
                request_body_buffer: None,
                ssl_contexts: Seq::empty(),
                sockets: Map::empty(),
            }),
    {
        HttpThread {
            loop_: 0,
            uws_loop: 0,
            http_context,
            https_context,
            lazy_https_init: None,
            queued_tasks: VecDeque::new(),
            deferred_tasks: Vec::new(),
            has_pending_queued_abort: false,
            queued_shutdowns: Vec::new(),
            queued_writes: Vec::new(),
            queued_response_body_drains: Vec::new(),
            queued_threadlocal_proxy_derefs: Vec::new(),
            has_awoken: false,
            lazy_libdeflater: None,
            lazy_request_body_buffer: None,
            ssl_contexts: SslContextCache::new(),
            abort_tracker: AbortTracker::new(),
        }
    }

    /// The loop of the sockets.
    pub fn uws_loop(&self) -> (r: u64)
        ensures
            r == self@.uws_loop,
    {
        self.uws_loop
    }

    /// The default context for plain or TLS connections.
    pub fn context<const IS_SSL: bool>(&self) -> (r: u64)
        ensures
            r == if IS_SSL {
                self@.https_context
            } else {
                self@.http_context
            },
    {
        if IS_SSL {
            self.https_context
        } else {
            self.http_context
        }
    }

    /// The default contexts, for those who pick one by a socket.
    pub fn contexts(&self) -> (r: Contexts)
        ensures
            r == (Contexts { http: self@.http_context, https: self@.https_context }),
    {
        Contexts { http: self.http_context, https: self.https_context }
    }

    /// The loop has to be woken for the thread to see what was queued.
    pub fn wakeup(&self) -> (wake: bool)
        ensures
            wake == self@.has_awoken,
    {
        self.has_awoken
    }

    /// Asks for the rest of a response body; `true` if the loop is to be woken.
    pub fn schedule_response_body_drain(&mut self, async_http_id: u32) -> (wake: bool)
        requires
            old(self).wf(),
        ensures
            final(self).wf(),
            wake == old(self)@.has_awoken,
            final(self)@ == (ThreadView {
                queued_response_body_drains: old(self)@.queued_response_body_drains.push(
                    DrainMessage { async_http_id },
                ),
                ..old(self)@
            }),
    {
        self.queued_response_body_drains.push(DrainMessage { async_http_id });
        self.wakeup()
    }

    /// Aborts a request; `true` if the loop is to be woken.
    pub fn schedule_shutdown(&mut self, async_http_id: u32) -> (wake: bool)
        requires
            old(self).wf(),
        ensures
            final(self).wf(),
            wake == old(self)@.has_awoken,
            final(self)@ == (ThreadView {
                queued_shutdowns: old(self)@.queued_shutdowns.push(
                    ShutdownMessage { async_http_id },
                ),
                ..old(self)@
            }),
    {
        self.queued_shutdowns.push(ShutdownMessage { async_http_id });
        self.wakeup()
    }

    /// Says that a request has bytes to write; `true` if the loop is to be woken.
    pub fn schedule_request_write(&mut self, async_http_id: u32, kind: WriteMessageType) -> (wake:
        bool)
        requires
            old(self).wf(),
        ensures
            final(self).wf(),
            wake == old(self)@.has_awoken,
            final(self)@ == (ThreadView {
                queued_writes: old(self)@.queued_writes.push(WriteMessage { async_http_id, kind }),
                ..old(self)@
            }),
    {
        self.queued_writes.push(WriteMessage { async_http_id, kind });
        self.wakeup()
    }

    /// Gives a reference to a tunnel back, later and on this thread; `true` if the
    /// loop is to be woken.
    pub fn schedule_proxy_deref(&mut self, proxy: TunnelId) -> (wake: bool)
        requires
            old(self).wf(),
        ensures
            final(self).wf(),
            wake == old(self)@.has_awoken,
            final(self)@ == (ThreadView {
                queued_proxy_derefs: old(self)@.queued_proxy_derefs.push(proxy),
                ..old(self)@
            }),
    {
        self.queued_threadlocal_proxy_derefs.push(proxy);
        self.wakeup()
    }

    /// Queues requests; `true` if the loop is to be woken. No requests, nothing to do.
    pub fn schedule(&mut self, batch: Vec<TaskId>) -> (wake: bool)
        requires
            old(self).wf(),
        ensures
            final(self).wf(),
            wake == (batch@.len() > 0 && old(self)@.has_awoken),
            final(self)@ == (ThreadView {
                queued_tasks: old(self)@.queued_tasks + batch@,
                ..old(self)@
            }),
    {
        if batch.len() == 0 {
            assert(self@.queued_tasks + batch@ =~= self@.queued_tasks);
            return false;
        }
        let ghost before = self@;
        let mut i: usize = 0;
        proof {
            assert(before.queued_tasks + batch@.take(0) =~= before.queued_tasks);
        }
        while i < batch.len()
            invariant
                i <= batch.len(),
                self.wf(),
                self@ == (ThreadView {
                    queued_tasks: before.queued_tasks + batch@.take(i as int),
                    ..before
                }),
            decreases batch.len() - i,
        {
            self.queued_tasks.push_back(batch[i]);
            proof {
                assert(batch@.take(i + 1) =~= batch@.take(i as int).push(batch@[i as int]));
                assert(before.queued_tasks + batch@.take(i + 1) =~= (before.queued_tasks
                    + batch@.take(i as int)).push(batch@[i as int]));
            }
            i = i + 1;
        }
        assert(batch@.take(i as int) =~= batch@);
        self.wakeup()
    }

    /// The thread begins to run on an event loop. Returned is how to set the default
    /// TLS context up now, where certificates have to be read; else that waits until
    /// the context is needed.
    pub fn on_start(&mut self, loop_: u64, uws_loop: u64, opts: InitOpts) -> (init_https: Option<
        InitOpts,
    >)
        requires
            old(self).wf(),
        ensures
            final(self).wf(),
            init_https == if opts.names_certificates() {
                Some(opts)
            } else {
                None
            },
            final(self)@ == (ThreadView {
                loop_,
                uws_loop,
                lazy_https_init: if opts.names_certificates() {
                    old(self)@.lazy_https_init
                } else {
                    Some(opts)
                },
                ..old(self)@
            }),
    {
        self.loop_ = loop_;
        self.uws_loop = uws_loop;
        if opts.has_certificates() {
            Some(opts)
        } else {
            self.lazy_https_init = Some(opts);
            None
        }
    }

    /// The thread is ready: from now on its loop can be woken.
    pub fn awaken(&mut self)
        requires
            old(self).wf(),
        ensures
            final(self).wf(),
            final(self)@ == (ThreadView { has_awoken: true, ..old(self)@ }),
    {
        self.has_awoken = true;
    }

    /// The buffer for a body of about `estimated_size` bytes: the kept large buffer, or
    /// a new one, or for a small body a small buffer of zeros.
    pub fn get_request_body_send_buffer(&mut self, estimated_size: usize) -> (r: RequestBodyBuffer)
        requires
            old(self).wf(),
        ensures
            final(self).wf(),
            lends(old(self)@.request_body_buffer, estimated_size, r),
            final(self)@ == (ThreadView {
                request_body_buffer: if estimated_size < REQUEST_BODY_SEND_STACK_BUFFER_SIZE {
                    old(self)@.request_body_buffer
                } else {
                    None
                },
                ..old(self)@
            }),
    {
        get_request_body_send_buffer(&mut self.lazy_request_body_buffer, estimated_size)
    }

    /// A body has been sent: its buffer is given back.
    pub fn release_request_body_buffer(&mut self, buffer: RequestBodyBuffer)
        requires
            old(self).wf(),
        ensures
            final(self).wf(),
            final(self)@ == (ThreadView {
                request_body_buffer: kept_after(old(self)@.request_body_buffer, buffer),
                ..old(self)@
            }),
    {
        buffer.release(&mut self.lazy_request_body_buffer)
    }

    /// There is no decompressor yet; one is to be made and handed to `deflater`.
    pub fn needs_deflater(&self) -> (r: bool)
        ensures
            r == (self@.libdeflater is None),
    {
        self.lazy_libdeflater.is_none()
    }

    /// The decompressor, which is kept from the first use on.
    pub fn deflater(&mut self, decompressor: Option<u64>) -> (r: &mut LibdeflateState)
        requires
            old(self).wf(),
            old(self)@.libdeflater is Some || decompressor is Some,
        ensures
            old(self)@.libdeflater matches Some(state) ==> *r == state,
            old(self)@.libdeflater is None ==> {
                &&& Some(r.decompressor) == decompressor
                &&& forall|i: int| 0 <= i < 524288 ==> #[trigger] r.shared_buffer@[i] == 0
            },
            final(self).wf(),
            final(self)@ == (ThreadView { libdeflater: Some(*final(r)), ..old(self)@ }),
    {
        if self.lazy_libdeflater.is_none() {
            if let Some(decompressor) = decompressor {
                self.lazy_libdeflater = Some(
                    Box::new(LibdeflateState { decompressor, shared_buffer: [0u8; 524288] }),
                );
            }
        }
        match &mut self.lazy_libdeflater {
            Some(state) => &mut **state,
            None => vstd::pervasive::unreached(),
        }
    }

    /// Starts a connection attempt. The clock is read twice: at `swept_at` contexts that
    /// nobody has used for too long are let go, and at `used_at` the one that is kept for
    /// the configuration, if any, is used.
    pub fn connect<'a, const IS_SSL: bool>(
        &mut self,
        client: &'a ConnectRequest,
        swept_at: u64,
        used_at: u64,
    ) -> (r: Connecting<'a>)
        requires
            old(self).wf(),
        ensures
            final(self).wf(),
            connects(IS_SSL, *client, swept_at, used_at, old(self)@, r, final(self)@),
    {
        let init_https = if IS_SSL {
            self.lazy_https_init.take()
        } else {
            None
        };
        let mut released: Vec<SslContextCacheEntry> = Vec::new();
        if client.unix_socket_path.len() > 0 {
            let step = ConnectStep::Unix(client.unix_socket_path.as_slice());
            return Connecting { init_https, released, custom_ctx: None, step };
        }
        if IS_SSL {
            if let Some(config) = client.get_custom_config() {
                released = self.ssl_contexts.evict_stale_ssl_contexts(swept_at);
                let custom_ctx = self.ssl_contexts.touch(config, used_at);
                let step = match custom_ctx {
                    Some(_) => client.step_with_kept_ctx(),
                    None => ConnectStep::CreateContext(config),
                };
                return Connecting { init_https, released, custom_ctx, step };
            }
        }
        Connecting { init_https, released, custom_ctx: None, step: client.step_with_default_ctx() }
    }

    /// Goes on once the context for a configuration has been made, or could not be. It
    /// is kept for later requests.
    pub fn custom_context_created<'a>(
        &mut self,
        client: &'a ConnectRequest,
        config: u64,
        made: Result<u64, InitError>,
        now: u64,
    ) -> (r: Connecting<'a>)
        requires
            old(self).wf(),
        ensures
            final(self).wf(),
            r.init_https is None,
            final(self)@ == (ThreadView {
                ssl_contexts: final(self)@.ssl_contexts,
                ..old(self)@
            }),
            match made {
                Err(_) => {
                    &&& r.step@ == ConnectStepView::Fail(Error::FailedToOpenSocket)
                    &&& r.custom_ctx is None
                    &&& r.released@ == Seq::<SslContextCacheEntry>::empty()
                    &&& final(self)@.ssl_contexts == old(self)@.ssl_contexts
                },
                Ok(ctx) => {
                    &&& r.step@ == client.with_new_ctx()
                    &&& r.custom_ctx == Some(ctx)
                    &&& r.released@.len() <= 1
                    &&& inserted(
                        old(self)@.ssl_contexts,
                        SslContextCacheEntry { config, ctx, last_used_ns: now },
                        if r.released@.len() == 0 {
                            None
                        } else {
                            Some(r.released@[0])
                        },
                        final(self)@.ssl_contexts,
                    )
                },
            },
    {
        let mut released: Vec<SslContextCacheEntry> = Vec::new();
        match made {
            Err(_) => Connecting {
                init_https: None,
                released,
                custom_ctx: None,
                step: ConnectStep::Fail(Error::FailedToOpenSocket),
            },
            Ok(ctx) => {
                if let Some(entry) = self.ssl_contexts.insert(config, ctx, now) {
                    released.push(entry);
                }
                Connecting {
                    init_https: None,
                    released,
                    custom_ctx: Some(ctx),
                    step: client.step_with_new_ctx(),
                }
            },
        }
    }
}

/// How a connection attempt starts: the default TLS context is set up where that is
/// still to be done, a path comes before any host, a request that needs a custom
/// context gets the one that is kept for its configuration, if that is not stale, and
/// every other request uses the default context.
pub open spec fn connects(
    is_ssl: bool,
    client: ConnectRequest,
    swept_at: u64,
    used_at: u64,
    before: ThreadView,
    r: Connecting,
    after: ThreadView,
) -> bool {
    let unix = client.unix_socket_path@.len() > 0;
    &&& r.init_https == if is_ssl {
        before.lazy_https_init
    } else {
        None
    }
    &&& after == (ThreadView {
        lazy_https_init: if is_ssl {
            None
        } else {
            before.lazy_https_init
        },
        ssl_contexts: after.ssl_contexts,
        ..before
    })
    &&& if !unix && is_ssl && client.custom_config() is Some {
        let config = client.custom_config()->0;
        let (kept, released) = swept(before.ssl_contexts, 0, swept_at);
        &&& r.released@ == released
        &&& after.ssl_contexts == touched(kept, config, used_at)
        &&& r.step@ == if has_config(kept, config) {
            client.with_kept_ctx()
        } else {
            ConnectStepView::CreateContext(config)
        }
        &&& r.custom_ctx is Some <==> has_config(kept, config)
        &&& forall|i: int|
            0 <= i < kept.len() && (#[trigger] kept[i]).config == config ==> r.custom_ctx == Some(
                kept[i].ctx,
            )
    } else {
        &&& after.ssl_contexts == before.ssl_contexts
        &&& r.released@ == Seq::<SslContextCacheEntry>::empty()
        &&& r.custom_ctx is None
        &&& r.step@ == if unix {
            ConnectStepView::Unix(client.unix_socket_path@)
        } else {
            client.with_default_ctx()
        }
    }
}

} // verus!
