//! What the TLS engine of a tunnel calls back. Each callback names the client that
//! the engine serves; a client that has let go of its tunnel is not called further.
//!
//! A callback that hands work to the client keeps a reference to the tunnel (its
//! guard), because that work may drop the client's own. The guard is given back
//! once the work is done.

use vstd::prelude::*;
use vstd::slice::slice_subrange;

use super::client::{ClientFlags, HTTPClient, HTTPStage, InternalState};
use super::heap::{retained, TunnelHeap, TunnelId};
use super::proxy_tunnel::{TunnelView, WrapperCall};
use super::socket::{Contexts, Socket};
use crate::error::Error;

verus! {

/// Whether `bun_core::is_ip_address` takes the bytes for an IP address.
pub uninterp spec fn ip_literal(input: Seq<u8>) -> bool;

/// Calls `bun_core::is_ip_address`: a strict parse of the bytes as a dotted quad or
/// an IPv6 address, the same on every platform. Which bytes parse is left to the
/// name; what is stated is that the answer depends on the bytes alone, and that
/// nothing longer than the longest literal, of 45 bytes, is one.
#[verifier::external_body]
fn is_ip_address(input: &[u8]) -> (r: bool)
    ensures
        r == ip_literal(input@),
        r ==> input@.len() <= 45,
{
    bun_core::is_ip_address(input)
}

/// How the TLS session of a tunnel is set up before its handshake. HTTP/1.1 is the
/// only protocol that is offered.
#[derive(Debug, PartialEq, Eq)]
pub struct AlpnConfig {
    /// The session.
    pub ssl: u64,
    /// The server name to ask for, ended by a zero byte; none for an IP address.
    pub server_name: Option<Vec<u8>>,
}

/// What an opened engine asks for.
#[derive(Debug, PartialEq, Eq)]
pub struct OpenStep {
    /// How many uses of a proxy are to be added to the count of those.
    pub proxy_uses: usize,
    pub guard: Option<TunnelId>,
    pub configure: Option<AlpnConfig>,
}

/// What is to be done next for a callback.
#[derive(Copy, Clone, Debug, PartialEq, Eq)]
pub enum Action {
    Nothing,
    /// The client is to take the decrypted bytes as body.
    HandleResponseBody,
    /// The client is to take the decrypted bytes as chunks of a body.
    HandleResponseBodyChunkedEncoding,
    /// The client is to read the decrypted bytes as headers, with the context that goes
    /// with the socket.
    HandleHeaders { context: u64, socket: Socket },
    /// The client is to hold the server's certificate against the server's name.
    CheckServerIdentity { socket: Socket, error_no: i32, ssl: u64 },
    /// The client may send its request.
    OnWritable { socket: Socket },
    /// The client is to tell its user how far it has come, with the context that goes
    /// with the socket.
    ProgressUpdate { context: u64, socket: Socket },
    /// The engine is owed a call.
    Engine(WrapperCall<'static>),
}

/// An action, and the tunnel that is held until the action is done.
#[derive(Copy, Clone, Debug, PartialEq, Eq)]
pub struct Step {
    pub guard: Option<TunnelId>,
    pub action: Action,
}

/// What becomes of encrypted bytes that the engine hands out.
#[derive(Copy, Clone, Debug, PartialEq, Eq)]
pub enum EncryptedStep {
    /// They wait in the tunnel, or there is no tunnel.
    Done,
    /// They are to be offered to `socket`.
    Write { tunnel: TunnelId, socket: Socket },
}

/// What the end of an engine asks for. In both of the last two cases the tunnel is
/// held once more, and that reference is to be given back on the next turn of the
/// network thread.
#[derive(Copy, Clone, Debug, PartialEq, Eq)]
pub enum CloseStep {
    /// The client has no tunnel.
    Ignored,
    /// The response is complete; the client is to report that over `progress`, a socket
    /// and the context that goes with it.
    Complete { tunnel: TunnelId, progress: Option<(u64, Socket)> },
    /// The request fails, unless the tunnel is detached; then [`finish_close`].
    Fail { tunnel: TunnelId, failure: Option<(Error, Socket)> },
}

/// The tunnel that a client holds is alive, and one more reference can be counted.
pub open spec fn can_hold(client: &HTTPClient, tunnels: Map<TunnelId, TunnelView>) -> bool {
    client.proxy_tunnel matches Some(id) ==> tunnels.contains_key(id) && tunnels[id].ref_count
        < u32::MAX
}

/// The client with both directions of its exchange at `stage`.
pub open spec fn at_stage(client: HTTPClient, stage: HTTPStage) -> HTTPClient {
    HTTPClient {
        state: InternalState { request_stage: stage, response_stage: stage, ..client.state },
        ..client
    }
}

/// An action on the tunnel's socket, where it has one.
pub open spec fn on_socket(socket: Socket, action: Action) -> Action {
    if socket is Detached {
        Action::Nothing
    } else {
        action
    }
}

/// The headers that came over a socket, where there is one.
pub open spec fn headers_over(contexts: Contexts, socket: Socket) -> Action {
    match contexts.of(socket) {
        Some(context) => Action::HandleHeaders { context, socket },
        None => Action::Nothing,
    }
}

/// A report of progress over a socket, where there is one.
pub open spec fn progress_over(contexts: Contexts, socket: Socket) -> Action {
    match contexts.of(socket) {
        Some(context) => Action::ProgressUpdate { context, socket },
        None => Action::Nothing,
    }
}

/// The action that closing the tunnel comes down to.
pub open spec fn closing(tunnel: TunnelView) -> Action {
    match tunnel.shutdown_call() {
        Some(call) => Action::Engine(call),
        None => Action::Nothing,
    }
}

/// The bytes that wait once `data` has been handed out by the engine and the
/// socket, if it was offered them, took the first `written`. Nothing overtakes what
/// already waits.
pub open spec fn after_encrypted(pending: Seq<u8>, data: Seq<u8>, written: int) -> Seq<u8> {
    if pending.len() > 0 {
        pending + data
    } else {
        data.skip(written)
    }
}

/// The session setup for a server known as `hostname`.
pub fn alpn_config(ssl: u64, hostname: &[u8], hostname_is_ip: bool) -> (r: AlpnConfig)
    ensures
        r.ssl == ssl,
        r.server_name is None <==> hostname_is_ip,
        r.server_name matches Some(name) ==> name@ == hostname@.push(0u8),
{
    if hostname_is_ip {
        AlpnConfig { ssl, server_name: None }
    } else {
        let mut name: Vec<u8> = Vec::new();
        name.extend_from_slice(hostname);
        name.push(0u8);
        assert(name@ =~= hostname@.push(0u8));
        AlpnConfig { ssl, server_name: Some(name) }
    }
}

/// The engine is about to shake hands with the server.
pub fn on_open(client: &mut HTTPClient, tunnels: &mut TunnelHeap) -> (step: OpenStep)
    requires
        old(tunnels).wf(),
        can_hold(old(client), old(tunnels)@),
    ensures
        final(tunnels).wf(),
        *final(client) == at_stage(*old(client), HTTPStage::ProxyHandshake),
        step.proxy_uses == 1,
        step.guard == old(client).proxy_tunnel,
        match old(client).proxy_tunnel {
            None => final(tunnels)@ == old(tunnels)@ && step.configure is None,
            Some(id) => {
                &&& final(tunnels)@ == retained(old(tunnels)@, id)
                &&& match old(tunnels)@[id].ssl() {
                    None => step.configure is None,
                    Some(ssl) => {
                        &&& step.configure matches Some(config)
                        &&& config.ssl == ssl
                        &&& config.server_name is None <==> ip_literal(old(client).server_name())
                        &&& old(client).server_name().len() > 45 ==> config.server_name is Some
                        &&& config.server_name matches Some(name) ==> name@
                            == old(client).server_name().push(0u8)
                    },
                }
            },
        },
{
    client.state.response_stage = HTTPStage::ProxyHandshake;
    client.state.request_stage = HTTPStage::ProxyHandshake;
    match client.proxy_tunnel {
        None => OpenStep { proxy_uses: 1, guard: None, configure: None },
        Some(id) => {
            tunnels.ref_(id);
            let configure = match tunnels.get(id).wrapper_ssl() {
                None => None,
                Some(ssl) => {
                    let hostname = client.effective_hostname();
                    let hostname_is_ip = is_ip_address(hostname);
                    Some(alpn_config(ssl, hostname, hostname_is_ip))
                },
            };
            OpenStep { proxy_uses: 1, guard: Some(id), configure }
        },
    }
}

/// Closes the tunnel `id` with `err`.
fn close_from_callback(tunnels: &mut TunnelHeap, id: TunnelId, err: Error) -> (action: Action)
    requires
        old(tunnels).wf(),
        old(tunnels)@.contains_key(id),
    ensures
        final(tunnels).wf(),
        final(tunnels)@ == old(tunnels)@.insert(
            id,
            TunnelView { shutdown_err: err, ..old(tunnels)@[id] },
        ),
        action == closing(old(tunnels)@[id]),
{
    match tunnels.get_mut(id).close(err) {
        Some(call) => Action::Engine(call),
        None => Action::Nothing,
    }
}

/// The client of the tunnel `id` is to report its progress over the tunnel's socket.
pub fn progress_update_for_proxy_socket(
    tunnels: &TunnelHeap,
    contexts: Contexts,
    id: TunnelId,
) -> (action: Action)
    requires
        tunnels.wf(),
        tunnels@.contains_key(id),
    ensures
        action == progress_over(contexts, tunnels@[id].socket),
{
    let socket = tunnels.get(id).socket;
    match contexts.context_of(socket) {
        Some(context) => Action::ProgressUpdate { context, socket },
        None => Action::Nothing,
    }
}

/// The engine decrypted `decoded_data`. Where the client is to take it as body, its
/// answer goes to [`body_handled`].
pub fn on_data(
    client: &mut HTTPClient,
    tunnels: &mut TunnelHeap,
    contexts: Contexts,
    decoded_data: &[u8],
) -> (step: Step)
    requires
        old(tunnels).wf(),
        can_hold(old(client), old(tunnels)@),
    ensures
        final(tunnels).wf(),
        decoded_data@.len() == 0 || old(client).proxy_tunnel is None ==> {
            &&& *final(client) == *old(client)
            &&& final(tunnels)@ == old(tunnels)@
            &&& step == (Step { guard: None, action: Action::Nothing })
        },
        decoded_data@.len() > 0 && old(client).proxy_tunnel is Some ==> {
            let id = old(client).proxy_tunnel->0;
            let held = retained(old(tunnels)@, id);
            &&& step.guard == Some(id)
            &&& match old(client).state.response_stage {
                HTTPStage::Body => {
                    &&& *final(client) == *old(client)
                    &&& final(tunnels)@ == held
                    &&& step.action == Action::HandleResponseBody
                },
                HTTPStage::BodyChunk => {
                    &&& *final(client) == *old(client)
                    &&& final(tunnels)@ == held
                    &&& step.action == Action::HandleResponseBodyChunkedEncoding
                },
                HTTPStage::ProxyHeaders => {
                    &&& *final(client) == *old(client)
                    &&& final(tunnels)@ == held
                    &&& step.action == headers_over(contexts, held[id].socket)
                },
                _ => {
                    &&& *final(client) == HTTPClient {
                        state: InternalState { pending_response: None, ..old(client).state },
                        ..*old(client)
                    }
                    &&& final(tunnels)@ == held.insert(
                        id,
                        TunnelView { shutdown_err: Error::UnexpectedData, ..held[id] },
                    )
                    &&& step.action == closing(held[id])
                },
            }
        },
{
    if decoded_data.len() == 0 {
        return Step { guard: None, action: Action::Nothing };
    }
    match client.proxy_tunnel {
        None => Step { guard: None, action: Action::Nothing },
        Some(id) => {
            tunnels.ref_(id);
            let action = match client.state.response_stage {
                HTTPStage::Body => Action::HandleResponseBody,
                HTTPStage::BodyChunk => Action::HandleResponseBodyChunkedEncoding,
                HTTPStage::ProxyHeaders => {
                    let socket = tunnels.get(id).socket;
                    match contexts.context_of(socket) {
                        Some(context) => Action::HandleHeaders { context, socket },
                        None => Action::Nothing,
                    }
                },
                _ => {
                    client.state.pending_response = None;
                    close_from_callback(tunnels, id, Error::UnexpectedData)
                },
            };
            Step { guard: Some(id), action }
        },
    }
}

/// The client took decrypted bytes as body: it failed, or it answered whether there
/// is progress to report.
pub fn body_handled(
    tunnels: &mut TunnelHeap,
    contexts: Contexts,
    id: TunnelId,
    answer: Result<bool, Error>,
) -> (action: Action)
    requires
        old(tunnels).wf(),
        old(tunnels)@.contains_key(id),
    ensures
        final(tunnels).wf(),
        match answer {
            Err(err) => {
                &&& final(tunnels)@ == old(tunnels)@.insert(
                    id,
                    TunnelView { shutdown_err: err, ..old(tunnels)@[id] },
                )
                &&& action == closing(old(tunnels)@[id])
            },
            Ok(report_progress) => {
                &&& final(tunnels)@ == old(tunnels)@
                &&& action == if report_progress {
                    progress_over(contexts, old(tunnels)@[id].socket)
                } else {
                    Action::Nothing
                }
            },
        },
{
    match answer {
        Err(err) => close_from_callback(tunnels, id, err),
        Ok(report_progress) => {
            if report_progress {
                progress_update_for_proxy_socket(tunnels, contexts, id)
            } else {
                Action::Nothing
            }
        },
    }
}

/// The client once a handshake has ended: its request starts at the headers, and a
/// handshake that succeeded leaves behind whether the certificate was in order.
pub open spec fn shaken(client: HTTPClient, handshake_success: bool, error_no: i32) -> HTTPClient {
    HTTPClient {
        state: InternalState {
            request_stage: HTTPStage::ProxyHeaders,
            response_stage: HTTPStage::ProxyHeaders,
            request_sent_len: 0,
            ..client.state
        },
        flags: if handshake_success {
            ClientFlags { did_have_handshaking_error: error_no != 0, ..client.flags }
        } else {
            client.flags
        },
        ..client
    }
}

/// The error that ends a tunnel after its handshake, if one does: a certificate
/// that is not in order where the client insists on one, or a failed handshake. A
/// failed handshake is blamed on the certificate only where the client already
/// knew of trouble with it.
pub open spec fn handshake_failure(
    flags: ClientFlags,
    handshake_success: bool,
    error_no: i32,
) -> Option<Error> {
    if handshake_success {
        if flags.reject_unauthorized && error_no != 0 {
            Some(Error::Certificate(error_no))
        } else {
            None
        }
    } else if flags.did_have_handshaking_error && error_no != 0 {
        Some(Error::Certificate(error_no))
    } else {
        Some(Error::ConnectionRefused)
    }
}

/// What follows a handshake over `tunnel`: the tunnel is closed, the server's
/// identity is checked, or the request goes out at once.
pub open spec fn handshake_action(
    flags: ClientFlags,
    tunnel: TunnelView,
    handshake_success: bool,
    error_no: i32,
) -> Action {
    let socket = tunnel.socket;
    if handshake_failure(flags, handshake_success, error_no) is Some {
        closing(tunnel)
    } else if !flags.reject_unauthorized {
        on_socket(socket, Action::OnWritable { socket })
    } else {
        match tunnel.ssl() {
            None => Action::Nothing,
            Some(ssl) => on_socket(socket, Action::CheckServerIdentity { socket, error_no, ssl }),
        }
    }
}

/// The handshake with the server has ended; `error_no` is what the verifier of the
/// server's certificate found, zero for nothing. Where the client is to check the
/// server's identity, its answer goes to [`identity_checked`].
pub fn on_handshake(
    client: &mut HTTPClient,
    tunnels: &mut TunnelHeap,
    handshake_success: bool,
    error_no: i32,
) -> (step: Step)
    requires
        old(tunnels).wf(),
        can_hold(old(client), old(tunnels)@),
    ensures
        final(tunnels).wf(),
        step.guard == old(client).proxy_tunnel,
        match old(client).proxy_tunnel {
            None => {
                &&& *final(client) == *old(client)
                &&& final(tunnels)@ == old(tunnels)@
                &&& step.action == Action::Nothing
            },
            Some(id) => {
                let held = retained(old(tunnels)@, id);
                &&& *final(client) == shaken(*old(client), handshake_success, error_no)
                &&& final(tunnels)@ == match handshake_failure(
                    old(client).flags,
                    handshake_success,
                    error_no,
                ) {
                    Some(err) => held.insert(id, TunnelView { shutdown_err: err, ..held[id] }),
                    None => held,
                }
                &&& step.action == handshake_action(
                    old(client).flags,
                    held[id],
                    handshake_success,
                    error_no,
                )
            },
        },
{
    match client.proxy_tunnel {
        None => Step { guard: None, action: Action::Nothing },
        Some(id) => {
            tunnels.ref_(id);
            client.state.response_stage = HTTPStage::ProxyHeaders;
            client.state.request_stage = HTTPStage::ProxyHeaders;
            client.state.request_sent_len = 0;
            let action = if handshake_success {
                client.flags.did_have_handshaking_error = error_no != 0;
                if client.flags.reject_unauthorized {
                    if client.flags.did_have_handshaking_error {
                        close_from_callback(tunnels, id, Error::Certificate(error_no))
                    } else {
                        match tunnels.get(id).wrapper_ssl() {
                            None => Action::Nothing,
                            Some(ssl) => {
                                let socket = tunnels.get(id).socket;
                                if socket.is_detached() {
                                    Action::Nothing
                                } else {
                                    Action::CheckServerIdentity { socket, error_no, ssl }
                                }
                            },
                        }
                    }
                } else {
                    identity_checked(tunnels, id, true)
                }
            } else if client.flags.did_have_handshaking_error && error_no != 0 {
                close_from_callback(tunnels, id, Error::Certificate(error_no))
            } else {
                close_from_callback(tunnels, id, Error::ConnectionRefused)
            };
            Step { guard: Some(id), action }
        },
    }
}

/// The server's identity was checked, or need not be: the request may go out over
/// the socket that the tunnel has by now, but only to a server that passed.
pub fn identity_checked(tunnels: &TunnelHeap, id: TunnelId, passed: bool) -> (action: Action)
    requires
        tunnels.wf(),
        tunnels@.contains_key(id),
    ensures
        action == if passed {
            on_socket(
                tunnels@[id].socket,
                Action::OnWritable { socket: tunnels@[id].socket },
            )
        } else {
            Action::Nothing
        },
{
    if !passed {
        return Action::Nothing;
    }
    let socket = tunnels.get(id).socket;
    if socket.is_detached() {
        Action::Nothing
    } else {
        Action::OnWritable { socket }
    }
}

/// The engine hands out encrypted bytes. They go behind the bytes that already
/// wait, or straight to the socket, which may take only some of them: what it took
/// goes to [`finish_write_encrypted`].
pub fn write_encrypted(
    client: &HTTPClient,
    tunnels: &mut TunnelHeap,
    encoded_data: &[u8],
) -> (step: EncryptedStep)
    requires
        old(tunnels).wf(),
        client.proxy_tunnel matches Some(id) ==> old(tunnels)@.contains_key(id),
    ensures
        final(tunnels).wf(),
        match client.proxy_tunnel {
            None => final(tunnels)@ == old(tunnels)@ && step == EncryptedStep::Done,
            Some(id) => {
                let tunnel = old(tunnels)@[id];
                if tunnel.pending.len() > 0 || tunnel.socket is Detached {
                    &&& step == EncryptedStep::Done
                    &&& final(tunnels)@ == old(tunnels)@.insert(
                        id,
                        TunnelView {
                            pending: after_encrypted(tunnel.pending, encoded_data@, 0),
                            ..tunnel
                        },
                    )
                } else {
                    &&& step == EncryptedStep::Write { tunnel: id, socket: tunnel.socket }
                    &&& final(tunnels)@ == old(tunnels)@
                }
            },
        },
{
    match client.proxy_tunnel {
        None => EncryptedStep::Done,
        Some(id) => {
            let socket = tunnels.get(id).socket;
            if tunnels.get(id).write_buffer.is_not_empty() {
                tunnels.get_mut(id).write_buffer.write(encoded_data);
                EncryptedStep::Done
            } else if socket.is_detached() {
                finish_write_encrypted(tunnels, id, encoded_data, 0);
                EncryptedStep::Done
            } else {
                EncryptedStep::Write { tunnel: id, socket }
            }
        },
    }
}

/// The socket took the first `written` of the encrypted bytes; the others wait.
pub fn finish_write_encrypted(
    tunnels: &mut TunnelHeap,
    id: TunnelId,
    encoded_data: &[u8],
    written: i32,
)
    requires
        old(tunnels).wf(),
        old(tunnels)@.contains_key(id),
        old(tunnels)@[id].pending.len() == 0,
        0 <= written <= encoded_data@.len(),
    ensures
        final(tunnels).wf(),
        final(tunnels)@ == old(tunnels)@.insert(
            id,
            TunnelView {
                pending: after_encrypted(
                    old(tunnels)@[id].pending,
                    encoded_data@,
                    written as int,
                ),
                ..old(tunnels)@[id]
            },
        ),
{
    let pending = slice_subrange(encoded_data, written as usize, encoded_data.len());
    assert(pending@ =~= encoded_data@.skip(written as int));
    if pending.len() > 0 {
        tunnels.get_mut(id).write_buffer.write(pending);
    }
    assert(tunnels@[id].pending =~= encoded_data@.skip(written as int));
    assert(tunnels@ =~= old(tunnels)@.insert(id, tunnels@[id]));
}

/// What the end of the engine of the tunnel `id` means to a client in `state`.
pub open spec fn close_outcome(
    state: InternalState,
    contexts: Contexts,
    id: TunnelId,
    tunnel: TunnelView,
) -> CloseStep {
    let attached = !(tunnel.socket is Detached);
    if state.in_progress() && state.ends_at_eof() {
        CloseStep::Complete {
            tunnel: id,
            progress: match contexts.of(tunnel.socket) {
                Some(context) => Some((context, tunnel.socket)),
                None => None,
            },
        }
    } else {
        CloseStep::Fail {
            tunnel: id,
            failure: if attached {
                Some((tunnel.shutdown_err, tunnel.socket))
            } else {
                None
            },
        }
    }
}

/// The engine has ended. A response that an end of the stream completes is
/// completed; any other request in flight fails with what the tunnel was closed for.
pub fn on_close(client: &mut HTTPClient, tunnels: &mut TunnelHeap, contexts: Contexts) -> (step:
    CloseStep)
    requires
        old(tunnels).wf(),
        can_hold(old(client), old(tunnels)@),
    ensures
        final(tunnels).wf(),
        match old(client).proxy_tunnel {
            None => {
                &&& step == CloseStep::Ignored
                &&& *final(client) == *old(client)
                &&& final(tunnels)@ == old(tunnels)@
            },
            Some(id) => {
                let state = old(client).state;
                &&& final(tunnels)@ == retained(old(tunnels)@, id)
                &&& step == close_outcome(state, contexts, id, old(tunnels)@[id])
                &&& *final(client) == HTTPClient {
                    state: InternalState {
                        received_last_chunk: state.received_last_chunk || step is Complete,
                        ..state
                    },
                    ..*old(client)
                }
            },
        },
{
    match client.proxy_tunnel {
        None => CloseStep::Ignored,
        Some(id) => {
            tunnels.ref_(id);
            let socket = tunnels.get(id).socket;
            if client.state.completes_on_close() {
                client.state.received_last_chunk = true;
                let progress = match progress_update_for_proxy_socket(tunnels, contexts, id) {
                    Action::ProgressUpdate { context, socket } => Some((context, socket)),
                    _ => None,
                };
                CloseStep::Complete { tunnel: id, progress }
            } else {
                let err = tunnels.get(id).shutdown_err;
                let failure = if socket.is_detached() {
                    None
                } else {
                    Some((err, socket))
                };
                CloseStep::Fail { tunnel: id, failure }
            }
        },
    }
}

/// The request over the tunnel `id` has failed: the tunnel lets go of its socket.
pub fn finish_close(tunnels: &mut TunnelHeap, id: TunnelId)
    requires
        old(tunnels).wf(),
        old(tunnels)@.contains_key(id),
    ensures
        final(tunnels).wf(),
        final(tunnels)@ == old(tunnels)@.insert(
            id,
            TunnelView { socket: Socket::Detached, ..old(tunnels)@[id] },
        ),
{
    tunnels.get_mut(id).detach_socket();
}

} // verus!
