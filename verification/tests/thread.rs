use netpaint::error::Error;
use netpaint::thread::abort_tracker::{AbortTracker, AnySocket};
use netpaint::thread::body_buffer::RequestBodyBuffer;
use netpaint::thread::connect::{
    is_known_proxy_protocol, ConnectRequest, ConnectStep, TlsProps, Url,
};
use netpaint::thread::drain::{
    socket_drain, socket_shutdown, socket_write, AbortQuery, DrainAction, DrainPhase,
    ShutdownStep, SocketDrain, SocketShutdown, SocketWrite, Tagged, WriteStep,
};
use netpaint::thread::http_thread::{
    DrainMessage, HttpThread, ShutdownMessage, WriteMessage, WriteMessageType,
};
use netpaint::thread::ssl_cache::{
    SslContextCache, SslContextCacheEntry, SSL_CONTEXT_CACHE_TTL_NS,
};
use netpaint::thread::startup::{
    idle_timeout_seconds, init_error_message, InitError, InitErrorMessage, InitOpts,
};
use netpaint::tunnel::heap::TunnelHeap;
use netpaint::tunnel::proxy_tunnel::ProxyTunnel;
use netpaint::tunnel::socket::Contexts;

fn url(protocol: &str, hostname: &str, port: u16) -> Url {
    Url {
        href: format!("{}://{}:{}", protocol, hostname, port).into_bytes(),
        protocol: protocol.as_bytes().to_vec(),
        hostname: hostname.as_bytes().to_vec(),
        port,
    }
}

fn request() -> ConnectRequest {
    ConnectRequest {
        unix_socket_path: Vec::new(),
        tls_props: None,
        http_proxy: None,
        url: url("https", "host", 443),
    }
}

fn custom_request(config: u64) -> ConnectRequest {
    let mut r = request();
    r.tls_props = Some(TlsProps { config, requires_custom_request_ctx: true });
    r
}

fn thread() -> HttpThread {
    HttpThread::new(1, 2)
}

const TO_HOST: ConnectStep<'static> = ConnectStep::Dial { hostname: b"host", port: 443 };
const TO_PROXY: ConnectStep<'static> = ConnectStep::Dial { hostname: b"proxy", port: 8080 };

#[test]
fn stale_contexts_leave_and_fresh_ones_stay() {
    let mut cache = SslContextCache::new();
    cache.insert(1, 11, 0);
    cache.insert(2, 12, 10);
    cache.insert(3, 13, 0);
    assert!(cache.evict_stale_ssl_contexts(SSL_CONTEXT_CACHE_TTL_NS).is_empty());
    let gone = cache.evict_stale_ssl_contexts(SSL_CONTEXT_CACHE_TTL_NS + 1);
    assert_eq!(
        gone,
        vec![
            SslContextCacheEntry { config: 1, ctx: 11, last_used_ns: 0 },
            SslContextCacheEntry { config: 3, ctx: 13, last_used_ns: 0 },
        ]
    );
    assert_eq!(cache.count(), 1);
    assert_eq!(cache.get(0).config, 2);
}

#[test]
fn the_last_context_takes_the_place_of_one_that_left() {
    let mut cache = SslContextCache::new();
    let late = SSL_CONTEXT_CACHE_TTL_NS + 1;
    for (config, used) in [(1, 0), (2, late), (3, late), (4, 0), (5, late), (6, 0)] {
        cache.insert(config, 10 + config, used);
    }
    let gone = cache.evict_stale_ssl_contexts(late);
    let gone: Vec<u64> = gone.iter().map(|e| e.config).collect();
    assert_eq!(gone, vec![1, 6, 4]);
    let kept: Vec<u64> = (0..cache.count()).map(|i| cache.get(i).config).collect();
    assert_eq!(kept, vec![5, 2, 3]);
}

#[test]
fn a_clock_that_goes_back_makes_nothing_stale() {
    let mut cache = SslContextCache::new();
    cache.insert(1, 11, u64::MAX);
    assert!(cache.evict_stale_ssl_contexts(0).is_empty());
}

#[test]
fn the_oldest_context_leaves_first() {
    let mut cache = SslContextCache::new();
    assert_eq!(cache.evict_oldest_ssl_context(), None);
    cache.insert(1, 11, 5);
    cache.insert(2, 12, 3);
    cache.insert(3, 13, 3);
    assert_eq!(cache.evict_oldest_ssl_context().unwrap().config, 2);
    assert_eq!(cache.evict_oldest_ssl_context().unwrap().config, 3);
    assert_eq!(cache.evict_oldest_ssl_context().unwrap().config, 1);
    assert_eq!(cache.count(), 0);
}

#[test]
fn a_use_makes_a_context_young() {
    let mut cache = SslContextCache::new();
    cache.insert(1, 11, 1);
    cache.insert(2, 12, 2);
    assert_eq!(cache.touch(1, 9), Some(11));
    assert_eq!(cache.touch(7, 9), None);
    assert_eq!(cache.evict_oldest_ssl_context().unwrap().config, 2);
}

#[test]
fn no_more_than_the_limit_are_kept() {
    let mut cache = SslContextCache::new();
    for i in 0..60u64 {
        assert_eq!(cache.insert(i, 100 + i, i), None);
    }
    assert_eq!(cache.insert(5, 999, 60), None);
    assert_eq!(cache.count(), 60);
    let gone = cache.insert(60, 160, 61).unwrap();
    assert_eq!(gone, SslContextCacheEntry { config: 0, ctx: 100, last_used_ns: 0 });
    assert_eq!(cache.count(), 60);
    assert_eq!(cache.touch(60, 62), Some(160));
    assert_eq!(cache.touch(5, 62), Some(999));
    assert_eq!(cache.touch(0, 62), None);
}

#[test]
fn sockets_are_tracked_by_request() {
    let mut tracker = AbortTracker::new();
    assert_eq!(tracker.get(1), None);
    tracker.put(1, AnySocket::SocketTls(10));
    tracker.put(2, AnySocket::SocketTcp(20));
    tracker.put(3, AnySocket::SocketTcp(30));
    tracker.put(1, AnySocket::SocketTcp(11));
    assert_eq!(tracker.get(1), Some(AnySocket::SocketTcp(11)));
    assert_eq!(tracker.remove(1), Some(AnySocket::SocketTcp(11)));
    assert_eq!(tracker.remove(1), None);
    assert_eq!(tracker.get(2), Some(AnySocket::SocketTcp(20)));
    assert_eq!(tracker.get(3), Some(AnySocket::SocketTcp(30)));
    tracker.put(2, AnySocket::SocketTls(21));
    assert_eq!(tracker.get(2), Some(AnySocket::SocketTls(21)));
}

#[test]
fn proxies_speak_http_or_https() {
    assert!(is_known_proxy_protocol(b""));
    assert!(is_known_proxy_protocol(b"http"));
    assert!(is_known_proxy_protocol(b"https"));
    for other in [&b"socks5"[..], &b"httpx"[..], &b"ftp"[..], &b"HTTP"[..], &b"htt"[..]] {
        assert!(!is_known_proxy_protocol(other));
    }
}

#[test]
fn a_path_comes_before_any_host() {
    let mut t = thread();
    let mut r = custom_request(5);
    r.unix_socket_path = b"/run/s".to_vec();
    r.http_proxy = Some(url("http", "proxy", 8080));
    let c = t.connect::<true>(&r, 0, 0);
    assert_eq!(c.step, ConnectStep::Unix(b"/run/s"));
    assert_eq!(c.custom_ctx, None);
    assert!(c.init_https.is_none());
}

#[test]
fn plain_requests_use_the_default_context() {
    let mut t = thread();
    let r = custom_request(5);
    let c = t.connect::<false>(&r, 0, 0);
    assert_eq!(c.step, TO_HOST);
    assert_eq!(c.custom_ctx, None);
    let r = request();
    assert_eq!(t.connect::<true>(&r, 0, 0).step, TO_HOST);
    let mut r = request();
    r.tls_props = Some(TlsProps { config: 1, requires_custom_request_ctx: false });
    assert_eq!(t.connect::<true>(&r, 0, 0).step, TO_HOST);
    assert_eq!(t.context::<true>(), 2);
    assert_eq!(t.context::<false>(), 1);
    assert_eq!(t.contexts(), Contexts { http: 1, https: 2 });
}

#[test]
fn proxies_are_dialed_if_they_are_named_and_known() {
    let mut t = thread();
    let mut r = request();
    r.http_proxy = Some(url("http", "proxy", 8080));
    assert_eq!(t.connect::<true>(&r, 0, 0).step, TO_PROXY);
    r.http_proxy = Some(url("socks5", "proxy", 8080));
    assert_eq!(
        t.connect::<true>(&r, 0, 0).step,
        ConnectStep::Fail(Error::UnsupportedProxyProtocol)
    );
    let mut nameless = url("socks5", "proxy", 8080);
    nameless.href = Vec::new();
    r.http_proxy = Some(nameless);
    assert_eq!(t.connect::<true>(&r, 0, 0).step, TO_HOST);
}

#[test]
fn the_tls_context_is_set_up_once_and_when_needed() {
    let mut t = thread();
    assert!(t.on_start(7, 8, InitOpts::default()).is_none());
    assert_eq!(t.loop_, 7);
    assert_eq!(t.uws_loop(), 8);
    let r = request();
    assert!(t.connect::<false>(&r, 0, 0).init_https.is_none());
    assert!(t.connect::<true>(&r, 0, 0).init_https.is_some());
    assert!(t.connect::<true>(&r, 0, 0).init_https.is_none());

    let mut t = thread();
    let mut opts = InitOpts::default();
    opts.ca.push(3);
    assert_eq!(t.on_start(7, 8, opts).unwrap().ca, vec![3]);
    assert!(t.connect::<true>(&r, 0, 0).init_https.is_none());
    let mut opts = InitOpts::default();
    opts.abs_ca_file_name = b"/ca.pem".to_vec();
    assert!(opts.has_certificates());
    assert!(!opts.for_install);
    opts.on_init_error = Some(6);
    let copy = opts.clone();
    assert_eq!(copy.abs_ca_file_name, b"/ca.pem");
    assert_eq!(copy.on_init_error, Some(6));
    assert!(InitOpts::default().on_init_error.is_none());
    assert!(!InitOpts::default().has_certificates());
}

#[test]
fn a_custom_context_is_made_once_and_then_reused() {
    let mut t = thread();
    let mut r = custom_request(5);
    r.http_proxy = Some(url("http", "proxy", 8080));
    let c = t.connect::<true>(&r, 10, 10);
    assert_eq!(c.step, ConnectStep::CreateContext(5));
    assert_eq!(c.custom_ctx, None);
    let c = t.custom_context_created(&r, 5, Ok(77), 11);
    assert_eq!(c.custom_ctx, Some(77));
    assert_eq!(c.step, TO_PROXY);
    assert!(c.released.is_empty());
    let c = t.connect::<true>(&r, 12, 12);
    assert_eq!(c.custom_ctx, Some(77));
    assert_eq!(c.step, TO_PROXY);

    let other = custom_request(6);
    assert_eq!(t.connect::<true>(&other, 12, 12).step, ConnectStep::CreateContext(6));

    let c = t.connect::<true>(&r, 13 + SSL_CONTEXT_CACHE_TTL_NS, 13 + SSL_CONTEXT_CACHE_TTL_NS);
    assert_eq!(
        c.released,
        vec![SslContextCacheEntry { config: 5, ctx: 77, last_used_ns: 12 }]
    );
    assert_eq!(c.step, ConnectStep::CreateContext(5));
}

#[test]
fn a_use_is_recorded_when_it_happens() {
    let mut t = thread();
    let r = custom_request(5);
    t.custom_context_created(&r, 5, Ok(77), 0);
    let c = t.connect::<true>(&r, SSL_CONTEXT_CACHE_TTL_NS, SSL_CONTEXT_CACHE_TTL_NS + 8);
    assert_eq!(c.custom_ctx, Some(77));
    assert_eq!(t.ssl_contexts.get(0).last_used_ns, SSL_CONTEXT_CACHE_TTL_NS + 8);
}

#[test]
fn a_kept_context_dials_any_proxy_and_a_new_one_only_known_ones() {
    let mut t = thread();
    let mut r = custom_request(5);
    let c = t.custom_context_created(&r, 5, Ok(77), 0);
    assert_eq!(c.step, TO_HOST);
    r.http_proxy = Some(url("socks5", "proxy", 8080));
    assert_eq!(t.connect::<true>(&r, 0, 0).step, TO_PROXY);
    let c = t.custom_context_created(&r, 6, Ok(78), 0);
    assert_eq!(c.step, ConnectStep::Fail(Error::UnsupportedProxyProtocol));
    assert_eq!(c.custom_ctx, Some(78));
    assert_eq!(t.ssl_contexts.count(), 2);
}

#[test]
fn a_context_that_cannot_be_made_opens_no_socket() {
    for err in [
        InitError::LoadCAFile,
        InitError::InvalidCAFile,
        InitError::InvalidCA,
        InitError::FailedToOpenSocket,
    ] {
        let mut t = thread();
        let r = custom_request(5);
        let c = t.custom_context_created(&r, 5, Err(err), 0);
        assert_eq!(c.step, ConnectStep::Fail(Error::FailedToOpenSocket));
        assert_eq!(c.custom_ctx, None);
        assert_eq!(t.ssl_contexts.count(), 0);
    }
}

#[test]
fn idle_timeouts_are_bounded_and_rounded() {
    assert_eq!(idle_timeout_seconds(None), 300);
    assert_eq!(idle_timeout_seconds(Some(0)), 0);
    assert_eq!(idle_timeout_seconds(Some(239)), 239);
    assert_eq!(idle_timeout_seconds(Some(240)), 240);
    assert_eq!(idle_timeout_seconds(Some(241)), 300);
    assert_eq!(idle_timeout_seconds(Some(301)), 360);
    assert_eq!(idle_timeout_seconds(Some(14340)), 14340);
    assert_eq!(idle_timeout_seconds(Some(u64::MAX)), 14340);
}

#[test]
fn init_errors_are_explained() {
    let text = |err, exists| init_error_message(err, exists).text();
    let of_thread = |text, names_file| ("HTTPThread", text, names_file);
    assert_eq!(text(InitError::LoadCAFile, false), of_thread("failed to find CA file", true));
    assert_eq!(text(InitError::LoadCAFile, true), of_thread("failed to load CA file", true));
    assert_eq!(text(InitError::InvalidCAFile, true), of_thread("the CA file is invalid", true));
    assert_eq!(text(InitError::InvalidCA, true), of_thread("the provided CA is invalid", false));
    assert_eq!(
        text(InitError::FailedToOpenSocket, true),
        ("error", "failed to start HTTP client thread", false)
    );
    assert_eq!(
        init_error_message(InitError::LoadCAFile, false),
        InitErrorMessage::FailedToFindCAFile
    );
}

#[test]
fn small_bodies_get_small_buffers() {
    let mut t = thread();
    let mut b = t.get_request_body_send_buffer(32767);
    assert!(matches!(b, RequestBodyBuffer::Stack(_)));
    assert_eq!(b.allocated_slice().len(), 32768);
    assert!(b.to_array_list().is_empty());
    t.release_request_body_buffer(b);
    assert!(t.lazy_request_body_buffer.is_none());
}

#[test]
fn one_large_buffer_is_kept_for_the_next_body() {
    let mut t = thread();
    let mut first = t.get_request_body_send_buffer(32768);
    let second = t.get_request_body_send_buffer(1 << 20);
    assert_eq!(first.allocated_slice().len(), 524288);
    first.allocated_slice()[3] = 9;
    if let RequestBodyBuffer::Heap(Some(b)) = &mut first {
        b.cursor = 12;
    }
    first.allocated_slice()[4] = 8;
    assert!(matches!(&first, RequestBodyBuffer::Heap(Some(b)) if b.cursor == 12));
    t.release_request_body_buffer(first);
    t.release_request_body_buffer(second);
    let mut next = t.get_request_body_send_buffer(40000);
    assert!(t.lazy_request_body_buffer.is_none());
    assert_eq!(next.allocated_slice()[3], 9);
    match next {
        RequestBodyBuffer::Heap(Some(b)) => assert_eq!(b.cursor, 0),
        _ => panic!("a large body needs a large buffer"),
    }
}

#[test]
fn the_decompressor_is_made_once() {
    let mut t = thread();
    assert!(t.needs_deflater());
    assert_eq!(t.deflater(Some(4)).decompressor, 4);
    assert!(!t.needs_deflater());
    t.deflater(None).shared_buffer[7] = 1;
    assert_eq!(t.deflater(Some(5)).decompressor, 4);
    assert_eq!(t.deflater(None).shared_buffer[7], 1);
}

#[test]
fn the_loop_is_woken_once_it_runs() {
    let mut t = thread();
    assert!(!t.schedule_shutdown(1));
    assert!(!t.schedule(vec![5]));
    t.awaken();
    assert!(t.wakeup());
    assert!(t.schedule_shutdown(2));
    assert!(t.schedule_response_body_drain(3));
    assert!(t.schedule_request_write(4, WriteMessageType::End));
    assert!(t.schedule_proxy_deref(0));
    assert!(t.schedule(vec![6, 7]));
    assert!(!t.schedule(vec![]));
    assert_eq!(t.queued_tasks, vec![5, 6, 7]);
}

#[test]
fn a_round_goes_through_its_phases_in_order() {
    let mut t = thread();
    t.schedule_response_body_drain(3);
    t.schedule_request_write(4, WriteMessageType::Data);
    t.schedule_shutdown(1);
    t.schedule_shutdown(2);
    let mut phase = DrainPhase::ResponseBodyDrains;
    let mut actions = Vec::new();
    loop {
        let (action, next) = t.drain_events(phase);
        let last = action == DrainAction::Tasks;
        actions.push(action);
        phase = next;
        if last {
            break;
        }
    }
    assert_eq!(
        actions,
        vec![
            DrainAction::ResponseBodyDrains(vec![DrainMessage { async_http_id: 3 }]),
            DrainAction::ResponseBodyDrains(vec![]),
            DrainAction::Writes(vec![WriteMessage {
                async_http_id: 4,
                kind: WriteMessageType::Data
            }]),
            DrainAction::Writes(vec![]),
            DrainAction::Shutdowns(vec![
                ShutdownMessage { async_http_id: 1 },
                ShutdownMessage { async_http_id: 2 }
            ]),
            DrainAction::Shutdowns(vec![]),
            DrainAction::ResolvedConnects,
            DrainAction::ProxyDerefs,
            DrainAction::Tasks,
        ]
    );
    assert_eq!(phase, DrainPhase::ResponseBodyDrains);
}

#[test]
fn messages_that_come_meanwhile_are_taken_too() {
    let mut t = thread();
    t.schedule_shutdown(1);
    let (_, phase) = t.drain_events(DrainPhase::Shutdowns);
    t.schedule_shutdown(2);
    let (action, _) = t.drain_events(phase);
    assert_eq!(action, DrainAction::Shutdowns(vec![ShutdownMessage { async_http_id: 2 }]));
}

#[test]
fn an_aborted_request_gives_its_socket_up() {
    let mut t = thread();
    t.abort_tracker.put(7, AnySocket::SocketTls(70));
    let message = ShutdownMessage { async_http_id: 7 };
    assert_eq!(t.shut_down(message), ShutdownStep::Socket(AnySocket::SocketTls(70)));
    assert_eq!(t.shut_down(message), ShutdownStep::NoSocket);
    assert_eq!(socket_shutdown(Tagged::Client(1)), SocketShutdown::CloseAndAbort(1));
    assert_eq!(socket_shutdown(Tagged::Session(2)), SocketShutdown::AbortByHttpId(2));
    assert_eq!(socket_shutdown(Tagged::Other), SocketShutdown::Close);
}

#[test]
fn contexts_are_asked_in_order_about_a_request_without_socket() {
    let mut t = thread();
    t.ssl_contexts.insert(5, 50, 0);
    t.ssl_contexts.insert(6, 60, 0);
    assert_eq!(t.abort_without_socket(0), AbortQuery::Context(2));
    assert_eq!(t.abort_without_socket(1), AbortQuery::Context(50));
    assert_eq!(t.abort_without_socket(2), AbortQuery::Context(60));
    assert_eq!(t.abort_without_socket(3), AbortQuery::Http3);
    assert!(!t.has_pending_queued_abort);
    assert_eq!(t.abort_without_socket(4), AbortQuery::NotStarted);
    assert!(t.has_pending_queued_abort);
}

#[test]
fn writes_go_to_the_socket_or_to_http3() {
    let mut t = thread();
    t.abort_tracker.put(7, AnySocket::SocketTcp(70));
    let message = |async_http_id, kind| WriteMessage { async_http_id, kind };
    assert_eq!(
        t.write_request(message(7, WriteMessageType::End)),
        WriteStep::Socket(AnySocket::SocketTcp(70))
    );
    assert_eq!(
        t.write_request(message(8, WriteMessageType::End)),
        WriteStep::Http3 { ended: true }
    );
    assert_eq!(
        t.write_request(message(8, WriteMessageType::Data)),
        WriteStep::Http3 { ended: false }
    );
    let end = WriteMessageType::End;
    let client = Tagged::Client(1);
    assert_eq!(
        socket_write(false, false, client, true, end),
        SocketWrite::FlushStream { client: 1, ended: true }
    );
    assert_eq!(socket_write(false, false, client, false, end), SocketWrite::Nothing);
    assert_eq!(socket_write(true, false, client, true, end), SocketWrite::Nothing);
    assert_eq!(socket_write(false, true, client, true, end), SocketWrite::Nothing);
    assert_eq!(socket_write(false, false, Tagged::Other, true, end), SocketWrite::Nothing);
    assert_eq!(
        socket_write(false, false, Tagged::Session(2), false, WriteMessageType::Data),
        SocketWrite::StreamBody { session: 2, ended: false }
    );
}

#[test]
fn bodies_are_drained_by_whoever_owns_the_socket() {
    let mut t = thread();
    t.abort_tracker.put(7, AnySocket::SocketTcp(70));
    let message = DrainMessage { async_http_id: 7 };
    assert_eq!(t.drain_response_body(message), Some(AnySocket::SocketTcp(70)));
    assert_eq!(t.drain_response_body(DrainMessage { async_http_id: 8 }), None);
    assert_eq!(socket_drain(Tagged::Client(1)), SocketDrain::Client(1));
    assert_eq!(socket_drain(Tagged::Session(2)), SocketDrain::Session(2));
    assert_eq!(socket_drain(Tagged::Other), SocketDrain::Nothing);
}

#[test]
fn queued_references_are_given_back() {
    let mut t = thread();
    let mut tunnels = TunnelHeap::new();
    let a = tunnels.insert(ProxyTunnel::default());
    let b = tunnels.insert(ProxyTunnel::default());
    tunnels.ref_(a);
    tunnels.ref_(a);
    t.schedule_proxy_deref(a);
    t.schedule_proxy_deref(b);
    t.schedule_proxy_deref(a);
    assert!(t.proxy_derefs_are_held(&tunnels));
    t.drain_proxy_derefs(&mut tunnels);
    assert_eq!(tunnels.get(a).ref_count, 1);
    assert!(!tunnels.contains(b));
    assert!(t.queued_threadlocal_proxy_derefs.is_empty());

    t.schedule_proxy_deref(a);
    t.schedule_proxy_deref(a);
    assert!(!t.proxy_derefs_are_held(&tunnels));
    let mut t = thread();
    t.schedule_proxy_deref(b);
    assert!(!t.proxy_derefs_are_held(&tunnels));
}

#[test]
fn requests_start_as_long_as_there_is_room() {
    let mut t = thread();
    t.deferred_tasks = vec![1, 2];
    t.schedule(vec![3, 4]);
    let mut admission = t.admit_tasks(0, 3).unwrap();
    let mut active = 0;
    let mut started = Vec::new();
    while let Some(task) = admission.next_task(&mut t) {
        if t.decide_on(&admission, task, false) {
            active += 1;
            started.push(task);
            admission.started(active);
        }
    }
    assert_eq!(started, vec![1, 2, 3]);
    assert_eq!(t.deferred_tasks, vec![4]);
    assert!(t.queued_tasks.is_empty());
}

#[test]
fn a_full_thread_starts_only_what_was_aborted() {
    let mut t = thread();
    t.deferred_tasks = vec![1, 2];
    t.schedule(vec![3, 4]);
    assert!(t.admit_tasks(5, 5).is_none());
    assert_eq!(t.deferred_tasks, vec![1, 2]);
    t.has_pending_queued_abort = true;
    let mut admission = t.admit_tasks(5, 5).unwrap();
    assert!(!t.has_pending_queued_abort);
    let mut started = Vec::new();
    while let Some(task) = admission.next_task(&mut t) {
        if t.decide_on(&admission, task, task == 2 || task == 4) {
            started.push(task);
            admission.started(5);
        }
    }
    assert_eq!(started, vec![2, 4]);
    assert_eq!(t.deferred_tasks, vec![1, 3]);
}

#[test]
fn a_request_that_ends_at_once_makes_room() {
    let mut t = thread();
    t.schedule(vec![1, 2]);
    t.has_pending_queued_abort = true;
    let mut admission = t.admit_tasks(1, 1).unwrap();
    let first = admission.next_task(&mut t).unwrap();
    assert!(t.decide_on(&admission, first, true));
    admission.started(0);
    let second = admission.next_task(&mut t).unwrap();
    assert!(t.decide_on(&admission, second, false));
}
