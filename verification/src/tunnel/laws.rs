//! What holds of tunnels across calls.

use vstd::prelude::*;

use super::callbacks::{
    after_encrypted, close_outcome, handshake_action, handshake_failure, CloseStep,
};
use super::client::{ClientFlags, HTTPClient, InternalState};
use super::heap::{released, retained, TunnelId};
use super::proxy_tunnel::{adopting, after_writable, TunnelView};
use super::socket::{Contexts, Socket};
use crate::error::Error;

verus! {

/// One step in the life of the bytes that a tunnel sends.
pub enum SendEvent {
    /// The engine handed out `data`; if nothing waited, the socket took the first
    /// `written` of it.
    Encrypted { data: Seq<u8>, written: nat },
    /// The socket took the first `written` of the bytes that waited.
    Writable { written: nat },
}

impl SendEvent {
    /// A socket takes no more than it is offered.
    pub open spec fn possible(self, pending: Seq<u8>) -> bool {
        match self {
            SendEvent::Encrypted { data, written } => written <= data.len(),
            SendEvent::Writable { written } => written <= pending.len(),
        }
    }

    /// The bytes that the engine handed out in this step.
    pub open spec fn produced(self) -> Seq<u8> {
        match self {
            SendEvent::Encrypted { data, .. } => data,
            SendEvent::Writable { .. } => Seq::empty(),
        }
    }

    /// The bytes that the socket took in this step.
    pub open spec fn sent(self, pending: Seq<u8>) -> Seq<u8> {
        match self {
            SendEvent::Encrypted { data, written } => if pending.len() > 0 {
                Seq::empty()
            } else {
                data.take(written as int)
            },
            SendEvent::Writable { written } => pending.take(written as int),
        }
    }

    /// The bytes that wait after this step.
    pub open spec fn pending_after(self, pending: Seq<u8>) -> Seq<u8> {
        match self {
            SendEvent::Encrypted { data, written } => after_encrypted(
                pending,
                data,
                written as int,
            ),
            SendEvent::Writable { written } => after_writable(pending, written as int),
        }
    }
}

/// The bytes that wait after a history of steps.
pub open spec fn pending_after_all(pending: Seq<u8>, events: Seq<SendEvent>) -> Seq<u8>
    decreases events.len(),
{
    if events.len() == 0 {
        pending
    } else {
        events.last().pending_after(pending_after_all(pending, events.drop_last()))
    }
}

/// Every step of a history is possible where it stands.
pub open spec fn all_possible(pending: Seq<u8>, events: Seq<SendEvent>) -> bool
    decreases events.len(),
{
    events.len() == 0 || {
        &&& all_possible(pending, events.drop_last())
        &&& events.last().possible(pending_after_all(pending, events.drop_last()))
    }
}

/// All bytes that the engine handed out in a history, in order.
pub open spec fn produced_by_all(events: Seq<SendEvent>) -> Seq<u8>
    decreases events.len(),
{
    if events.len() == 0 {
        Seq::empty()
    } else {
        produced_by_all(events.drop_last()) + events.last().produced()
    }
}

/// All bytes that the socket took in a history, in order.
pub open spec fn sent_by_all(pending: Seq<u8>, events: Seq<SendEvent>) -> Seq<u8>
    decreases events.len(),
{
    if events.len() == 0 {
        Seq::empty()
    } else {
        sent_by_all(pending, events.drop_last()) + events.last().sent(
            pending_after_all(pending, events.drop_last()),
        )
    }
}

/// No encrypted byte is lost, doubled or overtaken: whatever the socket takes and
/// whenever it takes it, the bytes that it took followed by those that wait are the
/// bytes that waited at first followed by those that the engine handed out since.
pub proof fn bytes_leave_in_order(pending: Seq<u8>, events: Seq<SendEvent>)
    requires
        all_possible(pending, events),
    ensures
        sent_by_all(pending, events) + pending_after_all(pending, events) == pending
            + produced_by_all(events),
    decreases events.len(),
{
    if events.len() == 0 {
        assert(Seq::<u8>::empty() + pending =~= pending + Seq::<u8>::empty());
    } else {
        let before = events.drop_last();
        let event = events.last();
        bytes_leave_in_order(pending, before);
        let p = pending_after_all(pending, before);
        assert(event.sent(p) + event.pending_after(p) =~= p + event.produced());
        assert((sent_by_all(pending, before) + event.sent(p)) + event.pending_after(p)
            =~= sent_by_all(pending, before) + (event.sent(p) + event.pending_after(p)));
        assert(sent_by_all(pending, before) + (p + event.produced()) =~= (sent_by_all(
            pending,
            before,
        ) + p) + event.produced());
        assert((pending + produced_by_all(before)) + event.produced() =~= pending + (
        produced_by_all(before) + event.produced()));
    }
}

/// A reference that is taken and given back leaves the tunnels as they were.
pub proof fn guards_are_balanced(tunnels: Map<TunnelId, TunnelView>, id: TunnelId)
    requires
        tunnels.contains_key(id),
        0 < tunnels[id].ref_count < u32::MAX,
    ensures
        released(retained(tunnels, id), id) == tunnels,
{
    assert(released(retained(tunnels, id), id) =~= tunnels);
}

/// A tunnel that has just been started is gone, and nothing else with it, once its
/// client gives its reference back.
pub proof fn last_reference_destroys(
    tunnels: Map<TunnelId, TunnelView>,
    id: TunnelId,
    tunnel: TunnelView,
)
    requires
        !tunnels.contains_key(id),
        tunnel.ref_count == 1,
    ensures
        released(tunnels.insert(id, tunnel), id) == tunnels,
{
    assert(released(tunnels.insert(id, tunnel), id) =~= tunnels);
}

/// A client that insists on certificates in order never sends its request on the
/// strength of the handshake alone: after a handshake that found fault, or failed,
/// the tunnel is closed, and after any other the server's identity is checked first.
pub proof fn enforcing_client_checks_first(
    flags: ClientFlags,
    tunnel: TunnelView,
    handshake_success: bool,
    error_no: i32,
)
    requires
        flags.reject_unauthorized,
    ensures
        !(handshake_action(flags, tunnel, handshake_success, error_no) is OnWritable),
        error_no != 0 || !handshake_success ==> handshake_failure(
            flags,
            handshake_success,
            error_no,
        ) is Some,
        handshake_success && error_no != 0 ==> handshake_failure(
            flags,
            handshake_success,
            error_no,
        ) == Some(Error::Certificate(error_no)),
{
}

/// No request goes out after a handshake that failed, whatever the client insists on.
pub proof fn failed_handshake_sends_nothing(
    flags: ClientFlags,
    tunnel: TunnelView,
    error_no: i32,
)
    ensures
        !(handshake_action(flags, tunnel, false, error_no) is OnWritable),
        !(handshake_action(flags, tunnel, false, error_no) is CheckServerIdentity),
        handshake_failure(flags, false, error_no) is Some,
{
}

/// A request that the end of its tunnel fails is failed with the error that the
/// tunnel was last closed with, over the tunnel's own socket.
pub proof fn cause_of_close_is_reported(
    state: InternalState,
    contexts: Contexts,
    id: TunnelId,
    tunnel: TunnelView,
    first: Error,
    last: Error,
)
    requires
        !(state.in_progress() && state.ends_at_eof()),
        !(tunnel.socket is Detached),
    ensures
        close_outcome(
            state,
            contexts,
            id,
            TunnelView {
                shutdown_err: last,
                ..TunnelView { shutdown_err: first, ..tunnel }
            },
        ) == (CloseStep::Fail { tunnel: id, failure: Some((last, tunnel.socket)) }),
{
}

/// A request that is done, has failed or is being redirected is never completed by
/// the end of its tunnel.
pub proof fn settled_request_is_not_completed(
    state: InternalState,
    contexts: Contexts,
    id: TunnelId,
    tunnel: TunnelView,
)
    requires
        !state.in_progress(),
    ensures
        close_outcome(state, contexts, id, tunnel) is Fail,
{
}

/// A tunnel that passes from one client to the next brings the verdict on its
/// handshake along: the next client knows of the same trouble that the first one
/// had, and finds nothing of the first one's bytes.
pub proof fn reuse_keeps_the_verdict(
    tunnel: TunnelView,
    first: HTTPClient,
    next: HTTPClient,
    id: TunnelId,
    socket: Socket,
)
    ensures
        adopting(next, id, tunnel.left_by(&first)).flags.did_have_handshaking_error
            == first.flags.did_have_handshaking_error,
        tunnel.left_by(&first).taken_by(next.id, socket).pending.len() == 0,
        tunnel.left_by(&first).taken_by(next.id, socket).socket == socket,
        tunnel.left_by(&first).taken_by(next.id, socket).ref_count == tunnel.ref_count,
{
}

/// Once a client that insists on certificates in order has used a tunnel, the
/// tunnel says so for good, whoever uses it after.
pub proof fn enforcement_is_remembered(
    tunnel: TunnelView,
    first: HTTPClient,
    next: HTTPClient,
    socket: Socket,
)
    requires
        tunnel.established_with_reject_unauthorized || first.flags.reject_unauthorized,
    ensures
        tunnel.left_by(&first).established_with_reject_unauthorized,
        tunnel.left_by(&first).taken_by(
            next.id,
            socket,
        ).left_by(&next).established_with_reject_unauthorized,
{
}

} // verus!
