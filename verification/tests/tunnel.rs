use netpaint::error::Error;
use netpaint::tunnel::callbacks::{
    alpn_config, body_handled, finish_close, finish_write_encrypted, identity_checked, on_close,
    on_data, on_handshake, on_open, progress_update_for_proxy_socket, write_encrypted, Action,
    CloseStep, EncryptedStep, Step,
};
use netpaint::tunnel::client::{ClientFlags, HTTPClient, HTTPStage, InternalState, Stage};
use netpaint::tunnel::heap::{TunnelHeap, TunnelId};
use netpaint::tunnel::proxy_tunnel::{
    InitError, ProxyTunnel, StartStep, WrapperCall, WriteDataError,
};
use netpaint::tunnel::socket::{Contexts, HTTPSocket, Socket};
use netpaint::tunnel::stream_buffer::StreamBuffer;

fn client(id: u64) -> HTTPClient {
    HTTPClient {
        id,
        hostname: None,
        url_hostname: b"example.com".to_vec(),
        state: InternalState {
            stage: Stage::Connect,
            request_stage: HTTPStage::Pending,
            response_stage: HTTPStage::Pending,
            request_sent_len: 17,
            pending_response: Some(5),
            content_length: None,
            chunked_encoding: false,
            chunked_decoder_state: 0,
            is_redirect_pending: false,
            received_last_chunk: false,
        },
        flags: ClientFlags {
            did_have_handshaking_error: false,
            reject_unauthorized: true,
            proxy_tunneling: true,
        },
        proxy_tunnel: None,
    }
}

fn started(client: &mut HTTPClient, tunnels: &mut TunnelHeap) -> TunnelId {
    let socket = HTTPSocket::<true> { handle: 40 };
    match ProxyTunnel::start::<true>(client, tunnels, socket, Ok(Some(9)), b"") {
        StartStep::Started { tunnel, .. } => tunnel,
        StartStep::Failed { .. } => panic!("the tunnel did not start"),
    }
}

const CONTEXTS: Contexts = Contexts { http: 1, https: 2 };
const SHUTDOWN: WrapperCall<'static> = WrapperCall::Shutdown { fast_shutdown: true };

#[test]
fn buffer_keeps_what_was_not_sent() {
    let mut b = StreamBuffer::new();
    assert!(!b.is_not_empty());
    b.write(b"hello");
    b.wrote(2);
    b.write(b" you");
    assert_eq!(b.slice(), b"llo you");
    assert_eq!(b.size(), 7);
    b.reset();
    assert!(!b.is_not_empty());
    assert_eq!(b.slice(), b"");
}

#[test]
fn a_new_tunnel_is_detached_and_held_once() {
    let t = ProxyTunnel::default();
    assert_eq!(t.wrapper, None);
    assert_eq!(t.shutdown_err, Error::ConnectionClosed);
    assert_eq!(t.socket, Socket::Detached);
    assert!(!t.did_have_handshaking_error);
    assert!(!t.established_with_reject_unauthorized);
    assert_eq!(t.ref_count, 1);
}

#[test]
fn start_makes_one_tunnel_for_the_client() {
    let mut tunnels = TunnelHeap::new();
    let mut c = client(7);
    let socket = HTTPSocket::<false> { handle: 3 };
    let step = ProxyTunnel::start::<false>(&mut c, &mut tunnels, socket, Ok(Some(9)), b"hello");
    let StartStep::Started { tunnel, replaced, call } = step else {
        panic!("the tunnel did not start");
    };
    assert_eq!(replaced, None);
    assert_eq!(call, WrapperCall::StartWithPayload(b"hello"));
    assert_eq!(c.proxy_tunnel, Some(tunnel));
    let t = tunnels.get(tunnel);
    assert_eq!(t.socket, Socket::Tcp(3));
    assert_eq!(t.wrapper_ssl(), Some(9));
    assert_eq!(t.wrapper.unwrap().ctx, 7);
    assert_eq!(t.ref_count, 1);

    let socket = HTTPSocket::<true> { handle: 4 };
    let step = ProxyTunnel::start::<true>(&mut c, &mut tunnels, socket, Ok(None), b"");
    let StartStep::Started { tunnel: second, replaced, call } = step else {
        panic!("the second tunnel did not start");
    };
    assert_ne!(second, tunnel);
    assert_eq!(replaced, Some(tunnel));
    assert_eq!(call, WrapperCall::Start);
    assert_eq!(tunnels.get(second).socket, Socket::Ssl(4));
}

#[test]
fn start_without_an_engine_refuses_the_connection() {
    let mut tunnels = TunnelHeap::new();
    let mut c = client(7);
    let socket = HTTPSocket::<true> { handle: 3 };
    let step = ProxyTunnel::start::<true>(
        &mut c,
        &mut tunnels,
        socket,
        Err(InitError::InvalidOptions),
        b"",
    );
    assert_eq!(
        step,
        StartStep::Failed { err: Error::ConnectionRefused, socket: Socket::Ssl(3) }
    );
    assert_eq!(c.proxy_tunnel, None);
    assert!(!tunnels.contains(0));
}

#[test]
fn references_are_counted_and_the_last_one_destroys() {
    let mut tunnels = TunnelHeap::new();
    let mut c = client(1);
    let id = started(&mut c, &mut tunnels);
    tunnels.ref_(id);
    assert_eq!(tunnels.get(id).ref_count, 2);
    assert!(!tunnels.deref(id));
    assert_eq!(tunnels.get(id).ref_count, 1);
    assert!(tunnels.deref(id));
    assert!(!tunnels.contains(id));
    let again = started(&mut c, &mut tunnels);
    assert_eq!(again, id);
}

#[test]
fn opening_names_the_server_unless_it_is_an_address() {
    let mut tunnels = TunnelHeap::new();
    let mut c = client(1);
    let id = started(&mut c, &mut tunnels);
    let step = on_open(&mut c, &mut tunnels);
    assert_eq!(step.proxy_uses, 1);
    assert_eq!(step.guard, Some(id));
    let config = step.configure.unwrap();
    assert_eq!(config.ssl, 9);
    assert_eq!(config.server_name, Some(b"example.com\0".to_vec()));
    assert_eq!(c.state.request_stage, HTTPStage::ProxyHandshake);
    assert_eq!(c.state.response_stage, HTTPStage::ProxyHandshake);
    assert_eq!(tunnels.get(id).ref_count, 2);

    for address in [&b"192.168.0.1"[..], &b"::1"[..], &b"2001:db8::8a2e:370:7334"[..]] {
        c.url_hostname = address.to_vec();
        assert_eq!(on_open(&mut c, &mut tunnels).configure.unwrap().server_name, None);
    }
    for name in [&b"127.1"[..], &b"10"[..], &b"1.2.3.4.5"[..], &b"localhost"[..]] {
        c.url_hostname = name.to_vec();
        let mut wanted = name.to_vec();
        wanted.push(0);
        assert_eq!(on_open(&mut c, &mut tunnels).configure.unwrap().server_name, Some(wanted));
    }
}

#[test]
fn a_replacement_name_goes_before_that_of_the_url() {
    let mut tunnels = TunnelHeap::new();
    let mut c = client(1);
    started(&mut c, &mut tunnels);
    c.hostname = Some(b"other.example".to_vec());
    let step = on_open(&mut c, &mut tunnels);
    assert_eq!(step.configure.unwrap().server_name, Some(b"other.example\0".to_vec()));
    c.hostname = Some(vec![b'a'; 3000]);
    let name = on_open(&mut c, &mut tunnels).configure.unwrap().server_name.unwrap();
    assert_eq!(name.len(), 3001);
    assert_eq!(name[3000], 0);
}

#[test]
fn opening_without_a_session_or_tunnel_configures_nothing() {
    let mut tunnels = TunnelHeap::new();
    let mut c = client(1);
    let step = on_open(&mut c, &mut tunnels);
    assert_eq!(step.proxy_uses, 1);
    assert_eq!(step.guard, None);
    assert_eq!(step.configure, None);
    assert_eq!(c.state.response_stage, HTTPStage::ProxyHandshake);
    let socket = HTTPSocket::<true> { handle: 1 };
    let _ = ProxyTunnel::start::<true>(&mut c, &mut tunnels, socket, Ok(None), b"");
    let step = on_open(&mut c, &mut tunnels);
    assert!(step.guard.is_some());
    assert_eq!(step.configure, None);
}

#[test]
fn session_setup_ends_the_name_with_a_zero_byte() {
    let config = alpn_config(4, b"a.b", false);
    assert_eq!(config.ssl, 4);
    assert_eq!(config.server_name, Some(vec![b'a', b'.', b'b', 0]));
    assert_eq!(alpn_config(4, b"1.1.1.1", true).server_name, None);
}

#[test]
fn decrypted_bytes_go_where_the_stage_says() {
    let mut tunnels = TunnelHeap::new();
    let mut c = client(1);
    let nothing = Step { guard: None, action: Action::Nothing };
    assert_eq!(on_data(&mut c, &mut tunnels, CONTEXTS, b"x"), nothing);
    let id = started(&mut c, &mut tunnels);
    assert_eq!(on_data(&mut c, &mut tunnels, CONTEXTS, b""), nothing);
    assert_eq!(tunnels.get(id).ref_count, 1);

    c.state.response_stage = HTTPStage::Body;
    let step = on_data(&mut c, &mut tunnels, CONTEXTS, b"x");
    assert_eq!(step, Step { guard: Some(id), action: Action::HandleResponseBody });
    assert_eq!(tunnels.get(id).ref_count, 2);
    tunnels.deref(id);

    c.state.response_stage = HTTPStage::BodyChunk;
    let step = on_data(&mut c, &mut tunnels, CONTEXTS, b"x");
    assert_eq!(step.action, Action::HandleResponseBodyChunkedEncoding);
    tunnels.deref(id);

    c.state.response_stage = HTTPStage::ProxyHeaders;
    let step = on_data(&mut c, &mut tunnels, CONTEXTS, b"x");
    assert_eq!(step.action, Action::HandleHeaders { context: 2, socket: Socket::Ssl(40) });
    tunnels.deref(id);
    tunnels.get_mut(id).detach_socket();
    assert_eq!(on_data(&mut c, &mut tunnels, CONTEXTS, b"x").action, Action::Nothing);
}

#[test]
fn unexpected_bytes_close_the_tunnel() {
    let mut tunnels = TunnelHeap::new();
    let mut c = client(1);
    let id = started(&mut c, &mut tunnels);
    c.state.response_stage = HTTPStage::Done;
    let step = on_data(&mut c, &mut tunnels, CONTEXTS, b"x");
    assert_eq!(step, Step { guard: Some(id), action: Action::Engine(SHUTDOWN) });
    assert_eq!(c.state.pending_response, None);
    assert_eq!(tunnels.get(id).shutdown_err, Error::UnexpectedData);
}

#[test]
fn the_answer_on_a_body_is_reported_or_closes() {
    let mut tunnels = TunnelHeap::new();
    let mut c = client(1);
    let id = started(&mut c, &mut tunnels);
    assert_eq!(body_handled(&mut tunnels, CONTEXTS, id, Ok(false)), Action::Nothing);
    assert_eq!(
        body_handled(&mut tunnels, CONTEXTS, id, Ok(true)),
        Action::ProgressUpdate { context: 2, socket: Socket::Ssl(40) }
    );
    assert_eq!(
        body_handled(&mut tunnels, CONTEXTS, id, Err(Error::Client(12))),
        Action::Engine(SHUTDOWN)
    );
    assert_eq!(tunnels.get(id).shutdown_err, Error::Client(12));
    tunnels.get_mut(id).detach_socket();
    assert_eq!(body_handled(&mut tunnels, CONTEXTS, id, Ok(true)), Action::Nothing);
    assert_eq!(progress_update_for_proxy_socket(&tunnels, CONTEXTS, id), Action::Nothing);
}

#[test]
fn a_clean_handshake_has_the_identity_checked_first() {
    let mut tunnels = TunnelHeap::new();
    let mut c = client(1);
    let id = started(&mut c, &mut tunnels);
    let step = on_handshake(&mut c, &mut tunnels, true, 0);
    assert_eq!(step.guard, Some(id));
    assert_eq!(
        step.action,
        Action::CheckServerIdentity { socket: Socket::Ssl(40), error_no: 0, ssl: 9 }
    );
    assert_eq!(c.state.request_stage, HTTPStage::ProxyHeaders);
    assert_eq!(c.state.response_stage, HTTPStage::ProxyHeaders);
    assert_eq!(c.state.request_sent_len, 0);
    assert_eq!(identity_checked(&tunnels, id, false), Action::Nothing);
    assert_eq!(
        identity_checked(&tunnels, id, true),
        Action::OnWritable { socket: Socket::Ssl(40) }
    );
}

#[test]
fn a_faulty_certificate_closes_where_it_is_insisted_on() {
    let mut tunnels = TunnelHeap::new();
    let mut c = client(1);
    let id = started(&mut c, &mut tunnels);
    let step = on_handshake(&mut c, &mut tunnels, true, 18);
    assert_eq!(step.action, Action::Engine(SHUTDOWN));
    assert!(c.flags.did_have_handshaking_error);
    assert_eq!(tunnels.get(id).shutdown_err, Error::Certificate(18));
}

#[test]
fn a_faulty_certificate_is_only_noted_where_it_is_not_insisted_on() {
    let mut tunnels = TunnelHeap::new();
    let mut c = client(1);
    let id = started(&mut c, &mut tunnels);
    c.flags.reject_unauthorized = false;
    let step = on_handshake(&mut c, &mut tunnels, true, 18);
    assert_eq!(step.action, Action::OnWritable { socket: Socket::Ssl(40) });
    assert!(c.flags.did_have_handshaking_error);
    assert_eq!(tunnels.get(id).shutdown_err, Error::ConnectionClosed);
}

#[test]
fn a_failed_handshake_names_the_certificate_only_if_trouble_was_known() {
    let mut tunnels = TunnelHeap::new();
    let mut c = client(1);
    let id = started(&mut c, &mut tunnels);
    let step = on_handshake(&mut c, &mut tunnels, false, 10);
    assert_eq!(step.action, Action::Engine(SHUTDOWN));
    assert_eq!(tunnels.get(id).shutdown_err, Error::ConnectionRefused);
    assert!(!c.flags.did_have_handshaking_error);
    c.flags.did_have_handshaking_error = true;
    on_handshake(&mut c, &mut tunnels, false, 10);
    assert_eq!(tunnels.get(id).shutdown_err, Error::Certificate(10));
    on_handshake(&mut c, &mut tunnels, false, 0);
    assert_eq!(tunnels.get(id).shutdown_err, Error::ConnectionRefused);
}

#[test]
fn a_handshake_without_a_tunnel_changes_nothing() {
    let mut tunnels = TunnelHeap::new();
    let mut c = client(1);
    let before = c.state;
    let step = on_handshake(&mut c, &mut tunnels, true, 0);
    assert_eq!(step, Step { guard: None, action: Action::Nothing });
    assert_eq!(c.state, before);
}

#[test]
fn encrypted_bytes_never_overtake_those_that_wait() {
    let mut tunnels = TunnelHeap::new();
    let mut c = client(1);
    assert_eq!(write_encrypted(&c, &mut tunnels, b"abc"), EncryptedStep::Done);
    let id = started(&mut c, &mut tunnels);
    let step = write_encrypted(&c, &mut tunnels, b"abc");
    assert_eq!(step, EncryptedStep::Write { tunnel: id, socket: Socket::Ssl(40) });
    finish_write_encrypted(&mut tunnels, id, b"abc", 1);
    assert_eq!(tunnels.get(id).write_buffer.slice(), b"bc");
    assert_eq!(write_encrypted(&c, &mut tunnels, b"de"), EncryptedStep::Done);
    assert_eq!(tunnels.get(id).write_buffer.slice(), b"bcde");

    let socket = HTTPSocket::<true> { handle: 40 };
    assert_eq!(tunnels.get_mut(id).on_writable::<true>(socket), Some(Socket::Ssl(40)));
    assert_eq!(tunnels.get(id).ref_count, 2);
    assert_eq!(tunnels.get_mut(id).finish_writable(Some(3)), Some(WrapperCall::Flush));
    assert_eq!(tunnels.get(id).write_buffer.slice(), b"e");
    assert_eq!(tunnels.get_mut(id).finish_writable(Some(1)), Some(WrapperCall::Flush));
    assert_eq!(tunnels.get_mut(id).on_writable::<true>(socket), None);
    assert_eq!(tunnels.get_mut(id).finish_writable(None), Some(WrapperCall::Flush));
    let step = write_encrypted(&c, &mut tunnels, b"f");
    assert_eq!(step, EncryptedStep::Write { tunnel: id, socket: Socket::Ssl(40) });
}

#[test]
fn a_detached_tunnel_keeps_all_encrypted_bytes() {
    let mut tunnels = TunnelHeap::new();
    let mut c = client(1);
    let id = started(&mut c, &mut tunnels);
    tunnels.get_mut(id).detach_socket();
    assert_eq!(write_encrypted(&c, &mut tunnels, b"abc"), EncryptedStep::Done);
    assert_eq!(tunnels.get(id).write_buffer.slice(), b"abc");
}

#[test]
fn the_end_of_the_stream_completes_an_open_ended_body() {
    let mut tunnels = TunnelHeap::new();
    let mut c = client(1);
    let id = started(&mut c, &mut tunnels);
    c.state.response_stage = HTTPStage::Body;
    let step = on_close(&mut c, &mut tunnels, CONTEXTS);
    assert_eq!(
        step,
        CloseStep::Complete { tunnel: id, progress: Some((2, Socket::Ssl(40))) }
    );
    assert!(c.state.received_last_chunk);
    assert_eq!(tunnels.get(id).ref_count, 2);
}

#[test]
fn the_end_of_the_stream_completes_a_body_in_its_trailers() {
    for state in [4u8, 5u8] {
        let mut tunnels = TunnelHeap::new();
        let mut c = client(1);
        let id = started(&mut c, &mut tunnels);
        tunnels.get_mut(id).detach_socket();
        c.state.chunked_encoding = true;
        c.state.chunked_decoder_state = state;
        let step = on_close(&mut c, &mut tunnels, CONTEXTS);
        assert_eq!(step, CloseStep::Complete { tunnel: id, progress: None });
    }
}

#[test]
fn any_other_end_fails_with_the_cause_of_the_close() {
    let mut tunnels = TunnelHeap::new();
    let mut c = client(1);
    assert_eq!(on_close(&mut c, &mut tunnels, CONTEXTS), CloseStep::Ignored);
    let id = started(&mut c, &mut tunnels);
    c.state.chunked_encoding = true;
    c.state.chunked_decoder_state = 3;
    tunnels.get_mut(id).close(Error::UnexpectedData);
    tunnels.get_mut(id).close(Error::ConnectionRefused);
    let step = on_close(&mut c, &mut tunnels, CONTEXTS);
    assert_eq!(
        step,
        CloseStep::Fail {
            tunnel: id,
            failure: Some((Error::ConnectionRefused, Socket::Ssl(40)))
        }
    );
    assert!(!c.state.received_last_chunk);
    finish_close(&mut tunnels, id);
    assert_eq!(tunnels.get(id).socket, Socket::Detached);
    let step = on_close(&mut c, &mut tunnels, CONTEXTS);
    assert_eq!(step, CloseStep::Fail { tunnel: id, failure: None });
}

#[test]
fn a_settled_request_is_not_completed() {
    for settle in [0, 1, 2] {
        let mut tunnels = TunnelHeap::new();
        let mut c = client(1);
        started(&mut c, &mut tunnels);
        c.state.response_stage = HTTPStage::Body;
        match settle {
            0 => c.state.stage = Stage::Done,
            1 => c.state.stage = Stage::Fail,
            _ => c.state.is_redirect_pending = true,
        }
        assert!(matches!(on_close(&mut c, &mut tunnels, CONTEXTS), CloseStep::Fail { .. }));
    }
}

#[test]
fn a_body_of_known_length_is_not_completed_by_the_end() {
    let mut tunnels = TunnelHeap::new();
    let mut c = client(1);
    started(&mut c, &mut tunnels);
    c.state.response_stage = HTTPStage::Body;
    c.state.content_length = Some(100);
    assert!(matches!(on_close(&mut c, &mut tunnels, CONTEXTS), CloseStep::Fail { .. }));
}

#[test]
fn engine_calls_need_an_engine() {
    let mut t = ProxyTunnel::default();
    assert_eq!(t.shutdown(), None);
    assert_eq!(t.close(Error::WantRead), None);
    assert_eq!(t.shutdown_err, Error::WantRead);
    assert_eq!(ProxyTunnel::close_raw(&mut t, Error::WantWrite), None);
    assert_eq!(t.shutdown_err, Error::WantWrite);
    assert_eq!(t.receive(b"x"), None);
    assert_eq!(t.ref_count, 2);
    assert_eq!(t.write(b"x"), Err(Error::ConnectionClosed));
    assert_eq!(t.finish_writable(None), None);

    let mut tunnels = TunnelHeap::new();
    let mut c = client(1);
    let id = started(&mut c, &mut tunnels);
    let t = tunnels.get_mut(id);
    assert_eq!(t.shutdown(), Some(SHUTDOWN));
    assert_eq!(t.receive(b"x"), Some(WrapperCall::ReceiveData(b"x")));
    assert_eq!(t.write(b"y"), Ok(WrapperCall::WriteData(b"y")));
}

#[test]
fn write_errors_keep_their_names() {
    assert_eq!(ProxyTunnel::write_result(Ok(5)), Ok(5));
    let of = |e| ProxyTunnel::write_result(Err(e));
    assert_eq!(of(WriteDataError::ConnectionClosed), Err(Error::ConnectionClosed));
    assert_eq!(of(WriteDataError::WantRead), Err(Error::WantRead));
    assert_eq!(of(WriteDataError::WantWrite), Err(Error::WantWrite));
}

#[test]
fn detaching_gives_the_reference_back() {
    let mut t = ProxyTunnel::default();
    t.socket = Socket::Tcp(1);
    t.ref_();
    assert!(!t.detach_and_deref());
    assert_eq!(t.socket, Socket::Detached);
    assert!(t.detach_and_deref());
    assert_eq!(t.ref_count, 0);
}

#[test]
fn a_reused_tunnel_brings_its_verdict_and_no_bytes() {
    let mut tunnels = TunnelHeap::new();
    let mut first = client(1);
    let id = started(&mut first, &mut tunnels);
    first.flags.did_have_handshaking_error = true;
    finish_write_encrypted(&mut tunnels, id, b"left over", 0);
    tunnels.get_mut(id).detach_owner(&first);
    assert_eq!(tunnels.get(id).socket, Socket::Detached);
    assert!(tunnels.get(id).established_with_reject_unauthorized);

    let mut next = client(2);
    next.flags.reject_unauthorized = false;
    let socket = HTTPSocket::<false> { handle: 8 };
    assert_eq!(tunnels.get_mut(id).adopt::<false>(id, &mut next, socket), None);
    let t = tunnels.get(id);
    assert_eq!(t.socket, Socket::Tcp(8));
    assert_eq!(t.write_buffer.slice(), b"");
    assert_eq!(t.wrapper.unwrap().ctx, 2);
    assert_eq!(t.wrapper.unwrap().ssl, Some(9));
    assert_eq!(next.proxy_tunnel, Some(id));
    assert!(next.flags.did_have_handshaking_error);
    assert!(!next.flags.proxy_tunneling);
    assert_eq!(next.state.request_stage, HTTPStage::ProxyHeaders);
    assert_eq!(next.state.response_stage, HTTPStage::ProxyHeaders);
    assert_eq!(next.state.request_sent_len, 0);
    tunnels.get_mut(id).detach_owner(&next);
    assert!(tunnels.get(id).established_with_reject_unauthorized);
}

#[test]
fn sockets_keep_their_transport() {
    assert_eq!(Socket::from_generic(HTTPSocket::<true> { handle: 3 }), Socket::Ssl(3));
    assert_eq!(Socket::from_generic(HTTPSocket::<false> { handle: 3 }), Socket::Tcp(3));
    assert!(Socket::Detached.is_detached());
    assert!(!Socket::Tcp(0).is_detached());
}

#[test]
fn the_context_goes_by_the_socket() {
    assert_eq!(CONTEXTS.context_of(Socket::Ssl(9)), Some(2));
    assert_eq!(CONTEXTS.context_of(Socket::Tcp(9)), Some(1));
    assert_eq!(CONTEXTS.context_of(Socket::Detached), None);

    let mut tunnels = TunnelHeap::new();
    let mut c = client(1);
    let socket = HTTPSocket::<false> { handle: 3 };
    let _ = ProxyTunnel::start::<false>(&mut c, &mut tunnels, socket, Ok(None), b"");
    let id = c.proxy_tunnel.unwrap();
    c.state.response_stage = HTTPStage::ProxyHeaders;
    let step = on_data(&mut c, &mut tunnels, CONTEXTS, b"x");
    assert_eq!(step.action, Action::HandleHeaders { context: 1, socket: Socket::Tcp(3) });
    assert_eq!(
        progress_update_for_proxy_socket(&tunnels, CONTEXTS, id),
        Action::ProgressUpdate { context: 1, socket: Socket::Tcp(3) }
    );
}
