//! What each call on a tunnel comes to, said of its inputs and results alone.

use vstd::prelude::*;

use super::callbacks::{
    alpn_config, body_handled, finish_close, finish_write_encrypted, identity_checked, ip_literal,
    on_close, on_data, on_handshake, on_open, progress_update_for_proxy_socket, write_encrypted,
    Action, AlpnConfig, CloseStep, EncryptedStep, OpenStep, Step,
};
use super::client::{ClientFlags, HTTPClient, HTTPStage, InternalState, Stage};
use super::heap::{TunnelHeap, TunnelId};
use super::proxy_tunnel::{
    InitError, ProxyTunnel, SslWrapper, StartStep, TunnelView, WrapperCall, WriteDataError,
};
use super::socket::{Contexts, HTTPSocket, Socket};
use super::stream_buffer::StreamBuffer;
use crate::error::Error;

verus! {

/// The same tunnels are alive, and none but `id` has changed.
pub open spec fn only_one_changed(
    before: Map<TunnelId, TunnelView>,
    after: Map<TunnelId, TunnelView>,
    id: TunnelId,
) -> bool {
    &&& forall|other: TunnelId| #[trigger]
        after.contains_key(other) <==> before.contains_key(other)
    &&& forall|other: TunnelId|
        other != id && before.contains_key(other) ==> #[trigger] after[other] == before[other]
}

/// A client has its stages, and how much of its request it has sent, set and is
/// otherwise as it was.
pub open spec fn only_stages_changed(before: HTTPClient, after: HTTPClient) -> bool {
    &&& after.id == before.id
    &&& after.hostname == before.hostname
    &&& after.url_hostname == before.url_hostname
    &&& after.proxy_tunnel == before.proxy_tunnel
    &&& after.state.stage == before.state.stage
    &&& after.state.pending_response == before.state.pending_response
    &&& after.state.content_length == before.state.content_length
    &&& after.state.chunked_encoding == before.state.chunked_encoding
    &&& after.state.chunked_decoder_state == before.state.chunked_decoder_state
    &&& after.state.is_redirect_pending == before.state.is_redirect_pending
    &&& after.state.received_last_chunk == before.state.received_last_chunk
}

/// A session is set up exactly where there is one. It asks for the server by name: by
/// the name that replaces that of the URL, or else by that of the URL, ended by a zero
/// byte; an IP address is not asked for.
pub proof fn opening_names_the_server(
    client: &mut HTTPClient,
    tunnels: &mut TunnelHeap,
    step: OpenStep,
)
    requires
        call_ensures(on_open, (client, tunnels), step),
    ensures
        step.configure is Some <==> {
            &&& old(client).proxy_tunnel matches Some(id)
            &&& old(tunnels)@[id].wrapper matches Some(wrapper)
            &&& wrapper.ssl is Some
        },
        step.configure matches Some(config) ==> {
            let wrapper = old(tunnels)@[old(client).proxy_tunnel->0].wrapper->0;
            &&& Some(config.ssl) == wrapper.ssl
            &&& old(client).hostname matches Some(host) ==> {
                &&& config.server_name is None <==> ip_literal(host@)
                &&& config.server_name matches Some(name) ==> name@.len() == host@.len() + 1
                    && name@.last() == 0 && name@.drop_last() == host@
            }
            &&& old(client).hostname is None ==> {
                let host = old(client).url_hostname@;
                &&& config.server_name is None <==> ip_literal(host)
                &&& config.server_name matches Some(name) ==> name@.len() == host.len() + 1
                    && name@.last() == 0 && name@.drop_last() == host
            }
        },
{
    if let Some(config) = step.configure {
        if let Some(name) = config.server_name {
            let host = match old(client).hostname {
                Some(host) => host@,
                None => old(client).url_hostname@,
            };
            assert(name@ == host.push(0u8));
            assert(name@.drop_last() =~= host);
        }
    }
}

/// An opened tunnel counts as one use of a proxy, both directions stand at the
/// handshake, and the tunnel is held once more for as long as the call is handled.
pub proof fn opening_stands_at_the_handshake(
    client: &mut HTTPClient,
    tunnels: &mut TunnelHeap,
    step: OpenStep,
)
    requires
        call_ensures(on_open, (client, tunnels), step),
        old(client).proxy_tunnel matches Some(id) ==> old(tunnels)@.contains_key(id)
            && old(tunnels)@[id].ref_count < u32::MAX,
    ensures
        step.proxy_uses == 1,
        step.guard == old(client).proxy_tunnel,
        final(client).state.request_stage == HTTPStage::ProxyHandshake,
        final(client).state.response_stage == HTTPStage::ProxyHandshake,
        final(client).state.request_sent_len == old(client).state.request_sent_len,
        final(client).flags == old(client).flags,
        only_stages_changed(*old(client), *final(client)),
        old(client).proxy_tunnel is None ==> final(tunnels)@ == old(tunnels)@,
        old(client).proxy_tunnel matches Some(id) ==> {
            &&& only_one_changed(old(tunnels)@, final(tunnels)@, id)
            &&& final(tunnels)@[id].ref_count == old(tunnels)@[id].ref_count + 1
            &&& final(tunnels)@[id] == (TunnelView {
                ref_count: final(tunnels)@[id].ref_count,
                ..old(tunnels)@[id]
            })
        },
{
}

/// The name in a session setup is the host, ended by a zero byte, unless that is an
/// address.
pub proof fn setups_end_names_with_zero(
    ssl: u64,
    hostname: &[u8],
    hostname_is_ip: bool,
    config: AlpnConfig,
)
    requires
        call_ensures(alpn_config, (ssl, hostname, hostname_is_ip), config),
    ensures
        config.ssl == ssl,
        hostname_is_ip <==> config.server_name is None,
        config.server_name matches Some(name) ==> name@.len() == hostname@.len() + 1
            && name@.last() == 0 && name@.drop_last() == hostname@,
{
    if let Some(name) = config.server_name {
        assert(name@.drop_last() =~= hostname@);
    }
}

/// Nothing comes of no bytes, nor of bytes for a client that has let go of its tunnel.
pub proof fn bytes_without_a_tunnel_are_dropped(
    client: &mut HTTPClient,
    tunnels: &mut TunnelHeap,
    contexts: Contexts,
    data: &[u8],
    step: Step,
)
    requires
        call_ensures(on_data, (client, tunnels, contexts, data), step),
        data@.len() == 0 || old(client).proxy_tunnel is None,
    ensures
        step.guard is None,
        step.action is Nothing,
        *final(client) == *old(client),
        final(tunnels)@ == old(tunnels)@,
{
}

/// Decrypted bytes are taken as body while a body is read, as chunks while chunks are
/// read, and as headers while headers are awaited, and those then over the tunnel's
/// socket: a TLS socket goes with the TLS context and a plain one with the plain one.
/// The tunnel is held once more and stays open, and the client stays as it is.
pub proof fn expected_bytes_reach_the_client(
    client: &mut HTTPClient,
    tunnels: &mut TunnelHeap,
    contexts: Contexts,
    data: &[u8],
    step: Step,
    id: TunnelId,
)
    requires
        call_ensures(on_data, (client, tunnels, contexts, data), step),
        data@.len() > 0,
        old(client).proxy_tunnel == Some(id),
        old(tunnels)@.contains_key(id),
        old(tunnels)@[id].ref_count < u32::MAX,
        old(client).state.response_stage == HTTPStage::Body || old(client).state.response_stage
            == HTTPStage::BodyChunk || old(client).state.response_stage == HTTPStage::ProxyHeaders,
    ensures
        step.guard == Some(id),
        old(client).state.response_stage == HTTPStage::Body <==> step.action is HandleResponseBody,
        old(client).state.response_stage == HTTPStage::BodyChunk <==> step.action
            is HandleResponseBodyChunkedEncoding,
        old(client).state.response_stage == HTTPStage::ProxyHeaders
            ==> match old(tunnels)@[id].socket {
            Socket::Ssl(_) => step.action == (Action::HandleHeaders {
                context: contexts.https,
                socket: old(tunnels)@[id].socket,
            }),
            Socket::Tcp(_) => step.action == (Action::HandleHeaders {
                context: contexts.http,
                socket: old(tunnels)@[id].socket,
            }),
            Socket::Detached => step.action is Nothing,
        },
        *final(client) == *old(client),
        only_one_changed(old(tunnels)@, final(tunnels)@, id),
        final(tunnels)@[id].ref_count == old(tunnels)@[id].ref_count + 1,
        final(tunnels)@[id] == (TunnelView {
            ref_count: final(tunnels)@[id].ref_count,
            ..old(tunnels)@[id]
        }),
{
}

/// Decrypted bytes at any other time are unexpected: the response that was awaited is
/// forgotten, that is the cause the tunnel is closed for, and its engine, if it has
/// one, is shut down at once.
pub proof fn unexpected_bytes_close(
    client: &mut HTTPClient,
    tunnels: &mut TunnelHeap,
    contexts: Contexts,
    data: &[u8],
    step: Step,
    id: TunnelId,
)
    requires
        call_ensures(on_data, (client, tunnels, contexts, data), step),
        data@.len() > 0,
        old(client).proxy_tunnel == Some(id),
        old(tunnels)@.contains_key(id),
        old(tunnels)@[id].ref_count < u32::MAX,
        old(client).state.response_stage != HTTPStage::Body,
        old(client).state.response_stage != HTTPStage::BodyChunk,
        old(client).state.response_stage != HTTPStage::ProxyHeaders,
    ensures
        step.guard == Some(id),
        old(tunnels)@[id].wrapper is Some ==> step.action == Action::Engine(
            WrapperCall::Shutdown { fast_shutdown: true },
        ),
        old(tunnels)@[id].wrapper is None ==> step.action is Nothing,
        *final(client) == (HTTPClient {
            state: InternalState { pending_response: None, ..old(client).state },
            ..*old(client)
        }),
        only_one_changed(old(tunnels)@, final(tunnels)@, id),
        final(tunnels)@[id].shutdown_err == Error::UnexpectedData,
        final(tunnels)@[id].ref_count == old(tunnels)@[id].ref_count + 1,
        final(tunnels)@[id] == (TunnelView {
            ref_count: final(tunnels)@[id].ref_count,
            shutdown_err: Error::UnexpectedData,
            ..old(tunnels)@[id]
        }),
{
}

/// What the client makes of a body is reported exactly if it says so and there is a
/// socket, with the context that goes with that; an error of the client closes the
/// tunnel with that error.
pub proof fn bodies_are_reported_or_close(
    tunnels: &mut TunnelHeap,
    contexts: Contexts,
    id: TunnelId,
    answer: Result<bool, Error>,
    action: Action,
)
    requires
        call_ensures(body_handled, (tunnels, contexts, id, answer), action),
        old(tunnels)@.contains_key(id),
    ensures
        answer == Ok::<bool, Error>(false) ==> action is Nothing
            && final(tunnels)@ == old(tunnels)@,
        answer == Ok::<bool, Error>(true) ==> final(tunnels)@ == old(tunnels)@
            && match old(tunnels)@[id].socket {
            Socket::Ssl(_) => action == (Action::ProgressUpdate {
                context: contexts.https,
                socket: old(tunnels)@[id].socket,
            }),
            Socket::Tcp(_) => action == (Action::ProgressUpdate {
                context: contexts.http,
                socket: old(tunnels)@[id].socket,
            }),
            Socket::Detached => action is Nothing,
        },
        answer matches Err(err) ==> {
            &&& only_one_changed(old(tunnels)@, final(tunnels)@, id)
            &&& final(tunnels)@[id] == (TunnelView { shutdown_err: err, ..old(tunnels)@[id] })
            &&& old(tunnels)@[id].wrapper is Some ==> action == Action::Engine(
                WrapperCall::Shutdown { fast_shutdown: true },
            )
            &&& old(tunnels)@[id].wrapper is None ==> action is Nothing
        },
{
}

/// Progress is reported over the tunnel's socket, with the context that goes with it.
pub proof fn progress_goes_over_the_socket(
    tunnels: &TunnelHeap,
    contexts: Contexts,
    id: TunnelId,
    action: Action,
)
    requires
        call_ensures(progress_update_for_proxy_socket, (tunnels, contexts, id), action),
    ensures
        match tunnels@[id].socket {
            Socket::Ssl(_) => action == (Action::ProgressUpdate {
                context: contexts.https,
                socket: tunnels@[id].socket,
            }),
            Socket::Tcp(_) => action == (Action::ProgressUpdate {
                context: contexts.http,
                socket: tunnels@[id].socket,
            }),
            Socket::Detached => action is Nothing,
        },
{
}

/// After any handshake the request starts over at the headers, and a client that has no
/// tunnel is left alone. What the verifier found is remembered after a handshake that
/// succeeded, and only then.
pub proof fn handshakes_start_the_request_over(
    client: &mut HTTPClient,
    tunnels: &mut TunnelHeap,
    success: bool,
    error_no: i32,
    step: Step,
)
    requires
        call_ensures(on_handshake, (client, tunnels, success, error_no), step),
    ensures
        step.guard == old(client).proxy_tunnel,
        old(client).proxy_tunnel is None ==> {
            &&& *final(client) == *old(client)
            &&& final(tunnels)@ == old(tunnels)@
            &&& step.action is Nothing
        },
        old(client).proxy_tunnel is Some ==> {
            &&& only_stages_changed(*old(client), *final(client))
            &&& final(client).state.request_stage == HTTPStage::ProxyHeaders
            &&& final(client).state.response_stage == HTTPStage::ProxyHeaders
            &&& final(client).state.request_sent_len == 0
            &&& final(client).flags.reject_unauthorized == old(client).flags.reject_unauthorized
            &&& final(client).flags.proxy_tunneling == old(client).flags.proxy_tunneling
            &&& success ==> final(client).flags.did_have_handshaking_error == (error_no != 0)
            &&& !success ==> final(client).flags.did_have_handshaking_error
                == old(client).flags.did_have_handshaking_error
        },
{
}

/// After a handshake that succeeded without fault, a client that insists on
/// certificates has the server's identity checked, over the socket of the tunnel,
/// whenever there is a session and a socket, be it plain or TLS.
pub proof fn clean_handshakes_lead_to_the_identity_check(
    client: &mut HTTPClient,
    tunnels: &mut TunnelHeap,
    step: Step,
    id: TunnelId,
)
    requires
        call_ensures(on_handshake, (client, tunnels, true, 0i32), step),
        old(client).proxy_tunnel == Some(id),
        old(client).flags.reject_unauthorized,
        old(tunnels)@.contains_key(id),
    ensures
        step.action is CheckServerIdentity <==> {
            &&& old(tunnels)@[id].wrapper matches Some(wrapper)
            &&& wrapper.ssl is Some
            &&& old(tunnels)@[id].socket is Tcp || old(tunnels)@[id].socket is Ssl
        },
        step.action is CheckServerIdentity || step.action is Nothing,
        step.action matches Action::CheckServerIdentity { socket, error_no, ssl } ==> {
            &&& socket == old(tunnels)@[id].socket
            &&& error_no == 0
            &&& Some(ssl) == old(tunnels)@[id].wrapper->0.ssl
        },
        final(tunnels)@[id].shutdown_err == old(tunnels)@[id].shutdown_err,
{
}

/// After a handshake that succeeded, a client that does not insist on certificates
/// sends its request at once, over any socket that there is, whatever the verifier
/// found, and the tunnel is not closed.
pub proof fn trusting_clients_send_at_once(
    client: &mut HTTPClient,
    tunnels: &mut TunnelHeap,
    error_no: i32,
    step: Step,
    id: TunnelId,
)
    requires
        call_ensures(on_handshake, (client, tunnels, true, error_no), step),
        old(client).proxy_tunnel == Some(id),
        !old(client).flags.reject_unauthorized,
        old(tunnels)@.contains_key(id),
    ensures
        match old(tunnels)@[id].socket {
            Socket::Detached => step.action is Nothing,
            socket => step.action == (Action::OnWritable { socket }),
        },
        final(tunnels)@[id].shutdown_err == old(tunnels)@[id].shutdown_err,
{
}

/// A certificate that the verifier found fault with closes the tunnel of a client that
/// insists on certificates, for that fault.
pub proof fn faulty_certificates_close(
    client: &mut HTTPClient,
    tunnels: &mut TunnelHeap,
    error_no: i32,
    step: Step,
    id: TunnelId,
)
    requires
        call_ensures(on_handshake, (client, tunnels, true, error_no), step),
        old(client).proxy_tunnel == Some(id),
        old(client).flags.reject_unauthorized,
        error_no != 0,
        old(tunnels)@.contains_key(id),
    ensures
        final(tunnels)@[id].shutdown_err == Error::Certificate(error_no),
        old(tunnels)@[id].wrapper is Some ==> step.action == Action::Engine(
            WrapperCall::Shutdown { fast_shutdown: true },
        ),
        old(tunnels)@[id].wrapper is None ==> step.action is Nothing,
{
}

/// A handshake that failed closes the tunnel. The certificate is blamed exactly if the
/// client already knew of trouble with it and the verifier found fault; else the
/// connection was refused.
pub proof fn failed_handshakes_close(
    client: &mut HTTPClient,
    tunnels: &mut TunnelHeap,
    error_no: i32,
    step: Step,
    id: TunnelId,
)
    requires
        call_ensures(on_handshake, (client, tunnels, false, error_no), step),
        old(client).proxy_tunnel == Some(id),
        old(tunnels)@.contains_key(id),
    ensures
        old(client).flags.did_have_handshaking_error && error_no != 0
            ==> final(tunnels)@[id].shutdown_err == Error::Certificate(error_no),
        !old(client).flags.did_have_handshaking_error || error_no == 0
            ==> final(tunnels)@[id].shutdown_err == Error::ConnectionRefused,
        old(tunnels)@[id].wrapper is Some ==> step.action == Action::Engine(
            WrapperCall::Shutdown { fast_shutdown: true },
        ),
        old(tunnels)@[id].wrapper is None ==> step.action is Nothing,
{
}

/// A handshake holds the tunnel once more and changes nothing of it but the cause of a
/// close, and of other tunnels nothing.
pub proof fn handshakes_hold_the_tunnel(
    client: &mut HTTPClient,
    tunnels: &mut TunnelHeap,
    success: bool,
    error_no: i32,
    step: Step,
    id: TunnelId,
)
    requires
        call_ensures(on_handshake, (client, tunnels, success, error_no), step),
        old(client).proxy_tunnel == Some(id),
        old(tunnels)@.contains_key(id),
        old(tunnels)@[id].ref_count < u32::MAX,
    ensures
        only_one_changed(old(tunnels)@, final(tunnels)@, id),
        final(tunnels)@[id].ref_count == old(tunnels)@[id].ref_count + 1,
        final(tunnels)@[id] == (TunnelView {
            ref_count: final(tunnels)@[id].ref_count,
            shutdown_err: final(tunnels)@[id].shutdown_err,
            ..old(tunnels)@[id]
        }),
{
}

/// A request goes out to a server that passed, over any socket that the tunnel has, and
/// to no other server.
pub proof fn only_checked_servers_get_the_request(
    tunnels: &TunnelHeap,
    id: TunnelId,
    passed: bool,
    action: Action,
)
    requires
        call_ensures(identity_checked, (tunnels, id, passed), action),
    ensures
        action is OnWritable <==> passed && !(tunnels@[id].socket is Detached),
        action is OnWritable || action is Nothing,
        action matches Action::OnWritable { socket } ==> socket == tunnels@[id].socket,
{
}

/// Encrypted bytes go to the socket exactly if there is one and nothing waits; else
/// they wait behind what already waits, and without a tunnel they are dropped.
pub proof fn encrypted_bytes_wait_their_turn(
    client: &HTTPClient,
    tunnels: &mut TunnelHeap,
    data: &[u8],
    step: EncryptedStep,
)
    requires
        call_ensures(write_encrypted, (client, tunnels, data), step),
        client.proxy_tunnel matches Some(id) ==> old(tunnels)@.contains_key(id),
    ensures
        step is Write <==> {
            &&& client.proxy_tunnel matches Some(id)
            &&& old(tunnels)@[id].pending.len() == 0
            &&& !(old(tunnels)@[id].socket is Detached)
        },
        step matches EncryptedStep::Write { tunnel, socket } ==> {
            &&& client.proxy_tunnel == Some(tunnel)
            &&& socket == old(tunnels)@[tunnel].socket
        },
        step is Write || client.proxy_tunnel is None ==> final(tunnels)@ == old(tunnels)@,
        step is Done ==> (client.proxy_tunnel matches Some(id) ==> {
            let before = old(tunnels)@[id];
            let after = final(tunnels)@[id];
            &&& only_one_changed(old(tunnels)@, final(tunnels)@, id)
            &&& after.pending == before.pending + data@
            &&& after == (TunnelView { pending: after.pending, ..before })
        }),
{
    if step is Done {
        if let Some(id) = client.proxy_tunnel {
            assert(final(tunnels)@[id].pending =~= old(tunnels)@[id].pending + data@);
        }
    }
}

/// What a socket took, followed by what waits, is what it was offered.
pub proof fn untaken_bytes_wait(
    tunnels: &mut TunnelHeap,
    id: TunnelId,
    data: &[u8],
    written: i32,
)
    requires
        call_ensures(finish_write_encrypted, (tunnels, id, data, written), ()),
        old(tunnels)@.contains_key(id),
        old(tunnels)@[id].pending.len() == 0,
        0 <= written <= data@.len(),
    ensures
        only_one_changed(old(tunnels)@, final(tunnels)@, id),
        final(tunnels)@[id].pending.len() == data@.len() - written,
        data@.take(written as int) + final(tunnels)@[id].pending == data@,
        final(tunnels)@[id] == (TunnelView {
            pending: final(tunnels)@[id].pending,
            ..old(tunnels)@[id]
        }),
{
    assert(final(tunnels)@[id].pending =~= data@.skip(written as int));
    assert(data@.take(written as int) + final(tunnels)@[id].pending =~= data@);
}

/// An exchange that is over, or is being redirected, is not completed by the end of the
/// stream, whatever it has read.
pub proof fn settled_exchanges_fail_at_the_end(
    client: &mut HTTPClient,
    tunnels: &mut TunnelHeap,
    contexts: Contexts,
    step: CloseStep,
)
    requires
        call_ensures(on_close, (client, tunnels, contexts), step),
        old(client).state.stage == Stage::Done || old(client).state.stage == Stage::Fail
            || old(client).state.is_redirect_pending,
    ensures
        !(step is Complete),
{
}

/// The end of the stream completes a response that is not chunked only if its body is
/// being read and no length was announced, and then it does; in every other stage, and
/// with any announced length, an exchange in progress fails.
pub proof fn unchunked_exchanges_end_with_an_open_body_only(
    client: &mut HTTPClient,
    tunnels: &mut TunnelHeap,
    contexts: Contexts,
    step: CloseStep,
)
    requires
        call_ensures(on_close, (client, tunnels, contexts), step),
        old(client).proxy_tunnel is Some,
        !old(client).state.chunked_encoding,
        old(client).state.stage != Stage::Done,
        old(client).state.stage != Stage::Fail,
        !old(client).state.is_redirect_pending,
    ensures
        step is Complete <==> old(client).state.response_stage == HTTPStage::Body
            && old(client).state.content_length is None,
        step is Fail <==> old(client).state.response_stage != HTTPStage::Body
            || old(client).state.content_length is Some,
{
}

/// The end of the stream completes a chunked response exactly if its decoder has come
/// to the trailers; an announced length and the stage do not matter.
pub proof fn chunked_exchanges_end_in_the_trailers_only(
    client: &mut HTTPClient,
    tunnels: &mut TunnelHeap,
    contexts: Contexts,
    step: CloseStep,
)
    requires
        call_ensures(on_close, (client, tunnels, contexts), step),
        old(client).proxy_tunnel is Some,
        old(client).state.chunked_encoding,
        old(client).state.stage != Stage::Done,
        old(client).state.stage != Stage::Fail,
        !old(client).state.is_redirect_pending,
    ensures
        step is Complete <==> 4 <= old(client).state.chunked_decoder_state <= 5,
        step is Fail <==> old(client).state.chunked_decoder_state < 4
            || old(client).state.chunked_decoder_state > 5,
{
}

/// A response that the end of the stream completes has its last chunk, and that is
/// reported over the tunnel's socket, with the context that goes with it. An exchange
/// that it fails, fails with the cause of the close, over the tunnel's socket. Without a
/// socket there is nobody to tell, and without a tunnel nothing comes of it.
pub proof fn ends_are_told_over_the_socket(
    client: &mut HTTPClient,
    tunnels: &mut TunnelHeap,
    contexts: Contexts,
    step: CloseStep,
)
    requires
        call_ensures(on_close, (client, tunnels, contexts), step),
    ensures
        old(client).proxy_tunnel is None <==> step is Ignored,
        step matches CloseStep::Complete { tunnel, progress } ==> {
            &&& old(client).proxy_tunnel == Some(tunnel)
            &&& final(client).state.received_last_chunk
            &&& match old(tunnels)@[tunnel].socket {
                Socket::Ssl(_) => progress == Some(
                    (contexts.https, old(tunnels)@[tunnel].socket),
                ),
                Socket::Tcp(_) => progress == Some((contexts.http, old(tunnels)@[tunnel].socket)),
                Socket::Detached => progress is None,
            }
        },
        step matches CloseStep::Fail { tunnel, failure } ==> {
            &&& old(client).proxy_tunnel == Some(tunnel)
            &&& final(client).state.received_last_chunk == old(client).state.received_last_chunk
            &&& match old(tunnels)@[tunnel].socket {
                Socket::Detached => failure is None,
                socket => failure == Some((old(tunnels)@[tunnel].shutdown_err, socket)),
            }
        },
{
}

/// The end of a stream changes nothing of the client but whether it has its last chunk,
/// and nothing of the tunnels but that the client's own is held once more.
pub proof fn ends_hold_the_tunnel(
    client: &mut HTTPClient,
    tunnels: &mut TunnelHeap,
    contexts: Contexts,
    step: CloseStep,
)
    requires
        call_ensures(on_close, (client, tunnels, contexts), step),
        old(client).proxy_tunnel matches Some(id) ==> old(tunnels)@.contains_key(id)
            && old(tunnels)@[id].ref_count < u32::MAX,
    ensures
        *final(client) == (HTTPClient {
            state: InternalState {
                received_last_chunk: final(client).state.received_last_chunk,
                ..old(client).state
            },
            ..*old(client)
        }),
        old(client).proxy_tunnel is None ==> final(tunnels)@ == old(tunnels)@,
        old(client).proxy_tunnel matches Some(id) ==> {
            &&& only_one_changed(old(tunnels)@, final(tunnels)@, id)
            &&& final(tunnels)@[id].ref_count == old(tunnels)@[id].ref_count + 1
            &&& final(tunnels)@[id] == (TunnelView {
                ref_count: final(tunnels)@[id].ref_count,
                ..old(tunnels)@[id]
            })
        },
{
}

/// Whether the end of the stream completes an exchange, as the state itself answers.
pub proof fn states_know_their_end(state: &InternalState, completes: bool)
    requires
        call_ensures(InternalState::completes_on_close, (state,), completes),
    ensures
        completes ==> state.stage != Stage::Done && state.stage != Stage::Fail
            && !state.is_redirect_pending,
        completes && !state.chunked_encoding ==> state.response_stage == HTTPStage::Body
            && state.content_length is None,
        completes && state.chunked_encoding ==> 4 <= state.chunked_decoder_state <= 5,
        !completes ==> {
            ||| state.stage == Stage::Done
            ||| state.stage == Stage::Fail
            ||| state.is_redirect_pending
            ||| state.chunked_encoding && !(4 <= state.chunked_decoder_state <= 5)
            ||| !state.chunked_encoding && state.response_stage != HTTPStage::Body
            ||| !state.chunked_encoding && state.content_length is Some
        },
{
}

/// A tunnel whose request has failed lets go of its socket, and of nothing else.
pub proof fn failed_tunnels_are_detached(tunnels: &mut TunnelHeap, id: TunnelId)
    requires
        call_ensures(finish_close, (tunnels, id), ()),
        old(tunnels)@.contains_key(id),
    ensures
        only_one_changed(old(tunnels)@, final(tunnels)@, id),
        final(tunnels)@[id] == (TunnelView { socket: Socket::Detached, ..old(tunnels)@[id] }),
{
}

/// A tunnel starts with the engine and the socket that it is given, held by its client
/// alone, with nothing to send and no trouble known. The engine is given the payload, if
/// there is one. The tunnel that the client held before is handed back.
pub proof fn started_tunnels_belong_to_their_client<'a, const IS_SSL: bool>(
    client: &mut HTTPClient,
    tunnels: &mut TunnelHeap,
    socket: HTTPSocket<IS_SSL>,
    ssl: Option<u64>,
    payload: &'a [u8],
    step: StartStep<'a>,
)
    requires
        call_ensures(
            ProxyTunnel::start::<IS_SSL>,
            (client, tunnels, socket, Ok::<Option<u64>, InitError>(ssl), payload),
            step,
        ),
    ensures
        step matches StartStep::Started { tunnel, replaced, call } && {
            let made = final(tunnels)@[tunnel];
            &&& !old(tunnels)@.contains_key(tunnel)
            &&& final(tunnels)@.contains_key(tunnel)
            &&& forall|other: TunnelId|
                other != tunnel ==> (#[trigger] final(tunnels)@.contains_key(other)
                    <==> old(tunnels)@.contains_key(other))
            &&& forall|other: TunnelId|
                other != tunnel ==> #[trigger] final(tunnels)@[other] == old(tunnels)@[other]
            &&& made.wrapper == Some(SslWrapper { ssl, ctx: old(client).id })
            &&& IS_SSL ==> made.socket == Socket::Ssl(socket.handle)
            &&& !IS_SSL ==> made.socket == Socket::Tcp(socket.handle)
            &&& made.pending.len() == 0
            &&& made.ref_count == 1
            &&& made.shutdown_err == Error::ConnectionClosed
            &&& !made.did_have_handshaking_error
            &&& !made.established_with_reject_unauthorized
            &&& replaced == old(client).proxy_tunnel
            &&& *final(client) == (HTTPClient { proxy_tunnel: Some(tunnel), ..*old(client) })
            &&& payload@.len() == 0 ==> call == WrapperCall::Start
            &&& payload@.len() > 0 ==> call == WrapperCall::StartWithPayload(payload)
        },
{
}

/// Without an engine the connection is refused, and nothing of a tunnel is left.
pub proof fn tunnels_need_an_engine<'a, const IS_SSL: bool>(
    client: &mut HTTPClient,
    tunnels: &mut TunnelHeap,
    socket: HTTPSocket<IS_SSL>,
    err: InitError,
    payload: &'a [u8],
    step: StartStep<'a>,
)
    requires
        call_ensures(
            ProxyTunnel::start::<IS_SSL>,
            (client, tunnels, socket, Err::<Option<u64>, InitError>(err), payload),
            step,
        ),
    ensures
        step matches StartStep::Failed { err, socket: to_close } && {
            &&& err == Error::ConnectionRefused
            &&& IS_SSL ==> to_close == Socket::Ssl(socket.handle)
            &&& !IS_SSL ==> to_close == Socket::Tcp(socket.handle)
        },
        final(tunnels)@ == old(tunnels)@,
        *final(client) == *old(client),
{
}

/// To close a tunnel is to name the cause and to shut its engine down at once, if it has
/// one.
pub proof fn closing_names_the_cause(
    tunnel: &mut ProxyTunnel,
    err: Error,
    call: Option<WrapperCall<'static>>,
)
    requires
        call_ensures(ProxyTunnel::close, (tunnel, err), call) || call_ensures(
            ProxyTunnel::close_raw,
            (tunnel, err),
            call,
        ),
    ensures
        final(tunnel)@ == (TunnelView { shutdown_err: err, ..old(tunnel)@ }),
        old(tunnel)@.wrapper is Some ==> call == Some(
            WrapperCall::Shutdown { fast_shutdown: true },
        ),
        old(tunnel)@.wrapper is None ==> call is None,
{
}

/// An engine is shut down at once, where there is one.
pub proof fn engines_are_shut_down_at_once(
    tunnel: &ProxyTunnel,
    call: Option<WrapperCall<'static>>,
)
    requires
        call_ensures(ProxyTunnel::shutdown, (tunnel,), call),
    ensures
        tunnel@.wrapper is Some <==> call is Some,
        call matches Some(c) ==> c == (WrapperCall::Shutdown { fast_shutdown: true }),
{
}

/// Waiting bytes are offered to the socket that has become writable, exactly if there
/// are any, and the tunnel is held once more meanwhile.
pub proof fn writable_sockets_are_offered_what_waits<const IS_SSL: bool>(
    tunnel: &mut ProxyTunnel,
    socket: HTTPSocket<IS_SSL>,
    target: Option<Socket>,
)
    requires
        call_ensures(ProxyTunnel::on_writable::<IS_SSL>, (tunnel, socket), target),
        old(tunnel)@.ref_count < u32::MAX,
    ensures
        target is Some <==> old(tunnel)@.pending.len() > 0,
        target matches Some(s) ==> {
            &&& IS_SSL ==> s == Socket::Ssl(socket.handle)
            &&& !IS_SSL ==> s == Socket::Tcp(socket.handle)
        },
        final(tunnel)@.ref_count == old(tunnel)@.ref_count + 1,
        final(tunnel)@ == (TunnelView { ref_count: final(tunnel)@.ref_count, ..old(tunnel)@ }),
{
}

/// What a writable socket took, followed by what still waits, is what waited; then the
/// engine, if there is one, is flushed, even if nothing was offered.
pub proof fn flushes_follow_writes(
    tunnel: &mut ProxyTunnel,
    written: Option<i32>,
    call: Option<WrapperCall<'static>>,
)
    requires
        call_ensures(ProxyTunnel::finish_writable, (tunnel, written), call),
        written matches Some(n) ==> 0 <= n <= old(tunnel)@.pending.len(),
    ensures
        written is None ==> final(tunnel)@.pending == old(tunnel)@.pending,
        written matches Some(n) ==> {
            &&& final(tunnel)@.pending.len() == old(tunnel)@.pending.len() - n
            &&& old(tunnel)@.pending.take(n as int) + final(tunnel)@.pending == old(tunnel)@.pending
        },
        final(tunnel)@ == (TunnelView { pending: final(tunnel)@.pending, ..old(tunnel)@ }),
        old(tunnel)@.wrapper is Some ==> call == Some(WrapperCall::Flush),
        old(tunnel)@.wrapper is None ==> call is None,
{
    if let Some(n) = written {
        assert(final(tunnel)@.pending =~= old(tunnel)@.pending.skip(n as int));
        assert(old(tunnel)@.pending.take(n as int) + final(tunnel)@.pending
            =~= old(tunnel)@.pending);
    }
}

/// Bytes that come in go to the engine, where there is one, and the tunnel is held once
/// more meanwhile.
pub proof fn incoming_bytes_reach_the_engine<'a>(
    tunnel: &mut ProxyTunnel,
    buf: &'a [u8],
    call: Option<WrapperCall<'a>>,
)
    requires
        call_ensures(ProxyTunnel::receive, (tunnel, buf), call),
        old(tunnel)@.ref_count < u32::MAX,
    ensures
        old(tunnel)@.wrapper is Some ==> call == Some(WrapperCall::ReceiveData(buf)),
        old(tunnel)@.wrapper is None ==> call is None,
        final(tunnel)@.ref_count == old(tunnel)@.ref_count + 1,
        final(tunnel)@ == (TunnelView { ref_count: final(tunnel)@.ref_count, ..old(tunnel)@ }),
{
}

/// Bytes that go out go to the engine; without one the connection is closed.
pub proof fn outgoing_bytes_need_an_engine<'a>(
    tunnel: &ProxyTunnel,
    buf: &'a [u8],
    r: Result<WrapperCall<'a>, Error>,
)
    requires
        call_ensures(ProxyTunnel::write, (tunnel, buf), r),
    ensures
        tunnel@.wrapper is Some ==> r == Ok::<WrapperCall, Error>(WrapperCall::WriteData(buf)),
        tunnel@.wrapper is None ==> r == Err::<WrapperCall, Error>(Error::ConnectionClosed),
{
}

/// How much an engine took is passed on, and its errors keep their names.
pub proof fn answers_to_writes_are_passed_on(
    answer: Result<usize, WriteDataError>,
    r: Result<usize, Error>,
)
    requires
        call_ensures(ProxyTunnel::write_result, (answer,), r),
    ensures
        answer is Ok <==> r is Ok,
        answer matches Ok(n) ==> r == Ok::<usize, Error>(n),
        answer == Err::<usize, _>(WriteDataError::ConnectionClosed) <==> r == Err::<usize, _>(
            Error::ConnectionClosed,
        ),
        answer == Err::<usize, _>(WriteDataError::WantRead) <==> r == Err::<usize, _>(
            Error::WantRead,
        ),
        answer == Err::<usize, _>(WriteDataError::WantWrite) <==> r == Err::<usize, _>(
            Error::WantWrite,
        ),
{
}

/// A tunnel that is detached and given back has no socket and one holder less; the last
/// holder learns that it was the last.
pub proof fn detaching_gives_one_reference_back(tunnel: &mut ProxyTunnel, last: bool)
    requires
        call_ensures(ProxyTunnel::detach_and_deref, (tunnel,), last),
        old(tunnel)@.ref_count > 0,
    ensures
        final(tunnel)@.socket is Detached,
        final(tunnel)@.ref_count == old(tunnel)@.ref_count - 1,
        last <==> old(tunnel)@.ref_count == 1,
        final(tunnel)@ == (TunnelView {
            socket: Socket::Detached,
            ref_count: final(tunnel)@.ref_count,
            ..old(tunnel)@
        }),
{
}

/// A tunnel that is detached has no socket and is otherwise as it was.
pub proof fn detaching_leaves_the_rest(tunnel: &mut ProxyTunnel)
    requires
        call_ensures(ProxyTunnel::detach_socket, (tunnel,), ()),
    ensures
        final(tunnel)@ == (TunnelView { socket: Socket::Detached, ..old(tunnel)@ }),
{
}

/// A tunnel that its client leaves has no socket, knows of the trouble that the client
/// had, and knows for good whether any client insisted on certificates; what waits and
/// who else holds it stays.
pub proof fn tunnels_remember_who_left(tunnel: &mut ProxyTunnel, client: &HTTPClient)
    requires
        call_ensures(ProxyTunnel::detach_owner, (tunnel, client), ()),
    ensures
        final(tunnel)@.socket is Detached,
        final(tunnel)@.did_have_handshaking_error == client.flags.did_have_handshaking_error,
        client.flags.reject_unauthorized ==> final(tunnel)@.established_with_reject_unauthorized,
        old(tunnel)@.established_with_reject_unauthorized
            ==> final(tunnel)@.established_with_reject_unauthorized,
        final(tunnel)@.established_with_reject_unauthorized
            ==> old(tunnel)@.established_with_reject_unauthorized
                || client.flags.reject_unauthorized,
        final(tunnel)@.wrapper == old(tunnel)@.wrapper,
        final(tunnel)@.shutdown_err == old(tunnel)@.shutdown_err,
        final(tunnel)@.pending == old(tunnel)@.pending,
        final(tunnel)@.ref_count == old(tunnel)@.ref_count,
{
}

/// A client that takes a tunnel over holds it, starts at the headers, no longer has to
/// ask the proxy, and knows what the tunnel knows of trouble. The tunnel has nothing to
/// send, serves that client over the new socket, and keeps its session and its holders.
pub proof fn adopted_tunnels_serve_the_new_client<const IS_SSL: bool>(
    tunnel: &mut ProxyTunnel,
    id: TunnelId,
    client: &mut HTTPClient,
    socket: HTTPSocket<IS_SSL>,
    replaced: Option<TunnelId>,
)
    requires
        call_ensures(ProxyTunnel::adopt::<IS_SSL>, (tunnel, id, client, socket), replaced),
    ensures
        replaced == old(client).proxy_tunnel,
        final(client).proxy_tunnel == Some(id),
        final(client).id == old(client).id,
        final(client).hostname == old(client).hostname,
        final(client).url_hostname == old(client).url_hostname,
        final(client).flags == (ClientFlags {
            proxy_tunneling: false,
            did_have_handshaking_error: old(tunnel)@.did_have_handshaking_error,
            ..old(client).flags
        }),
        final(client).state == (InternalState {
            request_stage: HTTPStage::ProxyHeaders,
            response_stage: HTTPStage::ProxyHeaders,
            request_sent_len: 0,
            ..old(client).state
        }),
        final(tunnel)@.pending.len() == 0,
        IS_SSL ==> final(tunnel)@.socket == Socket::Ssl(socket.handle),
        !IS_SSL ==> final(tunnel)@.socket == Socket::Tcp(socket.handle),
        final(tunnel)@.wrapper is Some <==> old(tunnel)@.wrapper is Some,
        final(tunnel)@.wrapper matches Some(w) ==> w.ctx == old(client).id && w.ssl
            == old(tunnel)@.wrapper->0.ssl,
        final(tunnel)@ == (TunnelView {
            wrapper: final(tunnel)@.wrapper,
            socket: final(tunnel)@.socket,
            pending: final(tunnel)@.pending,
            ..old(tunnel)@
        }),
{
}

/// One more reference is one more, and one less one less; the last is known as such.
pub proof fn references_are_counted(tunnel: &mut ProxyTunnel, last: bool)
    ensures
        call_ensures(ProxyTunnel::ref_, (tunnel,), ()) && old(tunnel)@.ref_count < u32::MAX ==> {
            &&& final(tunnel)@.ref_count == old(tunnel)@.ref_count + 1
            &&& final(tunnel)@ == (TunnelView {
                ref_count: final(tunnel)@.ref_count,
                ..old(tunnel)@
            })
        },
        call_ensures(ProxyTunnel::deref, (tunnel,), last) && old(tunnel)@.ref_count > 0 ==> {
            &&& final(tunnel)@.ref_count == old(tunnel)@.ref_count - 1
            &&& last <==> old(tunnel)@.ref_count == 1
            &&& final(tunnel)@ == (TunnelView {
                ref_count: final(tunnel)@.ref_count,
                ..old(tunnel)@
            })
        },
{
}

/// The session of a tunnel is that of its engine.
pub proof fn sessions_belong_to_engines(tunnel: &ProxyTunnel, ssl: Option<u64>)
    requires
        call_ensures(ProxyTunnel::wrapper_ssl, (tunnel,), ssl),
    ensures
        tunnel@.wrapper is None ==> ssl is None,
        tunnel@.wrapper matches Some(w) ==> ssl == w.ssl,
{
}

/// A reference that is taken or given back concerns one tunnel; the tunnel goes with its
/// last reference and not before.
pub proof fn tunnels_live_while_held(tunnels: &mut TunnelHeap, id: TunnelId, destroyed: bool)
    requires
        old(tunnels)@.contains_key(id),
        0 < old(tunnels)@[id].ref_count < u32::MAX,
    ensures
        call_ensures(TunnelHeap::ref_, (tunnels, id), ()) ==> {
            &&& only_one_changed(old(tunnels)@, final(tunnels)@, id)
            &&& final(tunnels)@[id].ref_count == old(tunnels)@[id].ref_count + 1
            &&& final(tunnels)@[id] == (TunnelView {
                ref_count: final(tunnels)@[id].ref_count,
                ..old(tunnels)@[id]
            })
        },
        call_ensures(TunnelHeap::deref, (tunnels, id), destroyed) ==> {
            &&& destroyed <==> old(tunnels)@[id].ref_count == 1
            &&& final(tunnels)@.contains_key(id) <==> old(tunnels)@[id].ref_count > 1
            &&& forall|other: TunnelId|
                other != id ==> (#[trigger] final(tunnels)@.contains_key(other)
                    <==> old(tunnels)@.contains_key(other))
            &&& forall|other: TunnelId|
                other != id ==> #[trigger] final(tunnels)@[other] == old(tunnels)@[other]
            &&& old(tunnels)@[id].ref_count > 1 ==> {
                &&& final(tunnels)@[id].ref_count == old(tunnels)@[id].ref_count - 1
                &&& final(tunnels)@[id] == (TunnelView {
                    ref_count: final(tunnels)@[id].ref_count,
                    ..old(tunnels)@[id]
                })
            }
        },
{
}

/// A tunnel comes to life under a name of its own, as it is.
pub proof fn new_tunnels_have_new_names(
    tunnels: &mut TunnelHeap,
    tunnel: ProxyTunnel,
    id: TunnelId,
)
    requires
        call_ensures(TunnelHeap::insert, (tunnels, tunnel), id),
    ensures
        !old(tunnels)@.contains_key(id),
        final(tunnels)@.contains_key(id),
        final(tunnels)@[id] == tunnel@,
        forall|other: TunnelId|
            other != id ==> (#[trigger] final(tunnels)@.contains_key(other)
                <==> old(tunnels)@.contains_key(other)),
        forall|other: TunnelId|
            other != id ==> #[trigger] final(tunnels)@[other] == old(tunnels)@[other],
{
}

/// Bytes are kept in the order in which they were written, and are there until they
/// have been sent.
pub proof fn buffers_are_queues(buffer: &mut StreamBuffer, data: &[u8], amount: usize)
    ensures
        call_ensures(StreamBuffer::write, (buffer, data), ()) ==> {
            &&& final(buffer)@.len() == old(buffer)@.len() + data@.len()
            &&& final(buffer)@.take(old(buffer)@.len() as int) == old(buffer)@
            &&& final(buffer)@.skip(old(buffer)@.len() as int) == data@
        },
        call_ensures(StreamBuffer::wrote, (buffer, amount), ()) && amount <= old(buffer)@.len()
            ==> {
            &&& final(buffer)@.len() == old(buffer)@.len() - amount
            &&& old(buffer)@.take(amount as int) + final(buffer)@ == old(buffer)@
        },
        call_ensures(StreamBuffer::reset, (buffer,), ()) ==> final(buffer)@.len() == 0,
{
    if call_ensures(StreamBuffer::write, (buffer, data), ()) {
        assert(final(buffer)@.take(old(buffer)@.len() as int) =~= old(buffer)@);
        assert(final(buffer)@.skip(old(buffer)@.len() as int) =~= data@);
    }
    if call_ensures(StreamBuffer::wrote, (buffer, amount), ()) && amount <= old(buffer)@.len() {
        assert(old(buffer)@.take(amount as int) + final(buffer)@ =~= old(buffer)@);
    }
}

/// What is to be sent can be seen and counted.
pub proof fn buffers_show_what_waits(
    buffer: &StreamBuffer,
    size: usize,
    not_empty: bool,
    slice: &[u8],
)
    ensures
        call_ensures(StreamBuffer::size, (buffer,), size) ==> size == buffer@.len(),
        call_ensures(StreamBuffer::is_not_empty, (buffer,), not_empty) ==> (not_empty
            <==> buffer@.len() != 0),
        call_ensures(StreamBuffer::slice, (buffer,), slice) ==> slice@ == buffer@,
{
}

/// A socket keeps its transport and its handle, and the context goes by the transport.
pub proof fn transports_are_kept<const IS_SSL: bool>(
    socket: HTTPSocket<IS_SSL>,
    r: Socket,
    contexts: Contexts,
    context: Option<u64>,
    detached: bool,
)
    ensures
        call_ensures(Socket::from_generic::<IS_SSL>, (socket,), r) ==> {
            &&& IS_SSL ==> r == Socket::Ssl(socket.handle)
            &&& !IS_SSL ==> r == Socket::Tcp(socket.handle)
        },
        call_ensures(Contexts::context_of, (&contexts, r), context) ==> match r {
            Socket::Ssl(_) => context == Some(contexts.https),
            Socket::Tcp(_) => context == Some(contexts.http),
            Socket::Detached => context is None,
        },
        call_ensures(Socket::is_detached, (&r,), detached) ==> (detached <==> !(r is Ssl) && !(r
            is Tcp)),
{
}

/// A tunnel that was just made has no engine and no socket, would say that the
/// connection closed, and is held once.
pub proof fn new_tunnels_are_blank(tunnel: ProxyTunnel)
    requires
        call_ensures(<ProxyTunnel as Default>::default, (), tunnel),
    ensures
        tunnel@.wrapper is None,
        tunnel@.socket is Detached,
        tunnel@.pending.len() == 0,
        tunnel@.shutdown_err == Error::ConnectionClosed,
        tunnel@.ref_count == 1,
        !tunnel@.did_have_handshaking_error,
        !tunnel@.established_with_reject_unauthorized,
{
}

/// A client asks for the name that replaces that of its URL, where it has one.
pub proof fn replacement_names_come_first(client: &HTTPClient, name: &[u8])
    requires
        call_ensures(HTTPClient::effective_hostname, (client,), name),
    ensures
        client.hostname matches Some(host) ==> name@ == host@,
        client.hostname is None ==> name@ == client.url_hostname@,
{
}

/// A tunnel is found under its name exactly while it lives. At first none does, and
/// nothing waits to be sent.
pub proof fn tunnels_are_found_by_name(
    tunnels: &TunnelHeap,
    id: TunnelId,
    there: bool,
    found: &ProxyTunnel,
    empty: TunnelHeap,
    buffer: StreamBuffer,
)
    ensures
        call_ensures(TunnelHeap::contains, (tunnels, id), there) ==> (there
            <==> tunnels@.contains_key(id)),
        call_ensures(TunnelHeap::get, (tunnels, id), found) ==> found@ == tunnels@[id],
        call_ensures(TunnelHeap::new, (), empty) ==> forall|name: TunnelId|
            !(#[trigger] empty@.contains_key(name)),
        call_ensures(StreamBuffer::new, (), buffer) ==> buffer@.len() == 0,
{
}

/// What is done to a tunnel under its name concerns that tunnel alone.
pub proof fn tunnels_are_changed_in_place(
    tunnels: &mut TunnelHeap,
    id: TunnelId,
    tunnel: &mut ProxyTunnel,
)
    requires
        call_ensures(TunnelHeap::get_mut, (tunnels, id), tunnel),
        old(tunnels)@.contains_key(id),
    ensures
        old(tunnel)@ == old(tunnels)@[id],
        final(tunnels)@[id] == final(tunnel)@,
        only_one_changed(old(tunnels)@, final(tunnels)@, id),
{
}

/// What is said of a tunnel is what its fields hold.
pub proof fn tunnels_are_their_fields(tunnel: ProxyTunnel)
    ensures
        tunnel@.wrapper == tunnel.wrapper,
        tunnel@.shutdown_err == tunnel.shutdown_err,
        tunnel@.socket == tunnel.socket,
        tunnel@.pending == tunnel.write_buffer@,
        tunnel@.did_have_handshaking_error == tunnel.did_have_handshaking_error,
        tunnel@.established_with_reject_unauthorized
            == tunnel.established_with_reject_unauthorized,
        tunnel@.ref_count == tunnel.ref_count,
{
}

} // verus!
