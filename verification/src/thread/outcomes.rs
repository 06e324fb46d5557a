//! What each call on the network thread comes to, said of its inputs and results alone.

use vstd::prelude::*;

use crate::error::Error;
use crate::tunnel::heap::{TunnelHeap, TunnelId};
use crate::tunnel::proxy_tunnel::TunnelView;
use crate::tunnel::socket::Contexts;

use super::abort_tracker::{AbortTracker, AnySocket};
use super::admission::Admission;
use super::array_map::{lemma_swap_removed, swap_removed};
use super::body_buffer::{HeapRequestBodyBuffer, RequestBodyBuffer};
use super::connect::{
    ascii, is_known_proxy_protocol, proxy_protocol_known, ConnectRequest, ConnectStep, Connecting,
    Url,
};
use super::drain::{
    owed, socket_drain, socket_shutdown, socket_write, AbortQuery, DrainAction,
    DrainPhase, ShutdownStep, SocketDrain, SocketShutdown, SocketWrite, Tagged, WriteStep,
};
use super::http_thread::{
    DrainMessage, HttpThread, LibdeflateState, ShutdownMessage, TaskId, ThreadView, WriteMessage,
    WriteMessageType,
};
use super::laws::{cache_stays_bounded, lemma_evicted, new_contexts_are_kept};
use super::ssl_cache::{
    has_config, inserted, is_oldest, lemma_swept, stored, swept, touched, SslContextCache,
    SslContextCacheEntry,
};
use super::startup::{
    idle_timeout_seconds, init_error_message, InitError, InitErrorMessage, InitOpts,
};

verus! {

/// The bytes of a protocol are `http`, `https` or none.
pub open spec fn http_https_or_none(protocol: Seq<u8>) -> bool {
    ||| protocol == Seq::<u8>::empty()
    ||| protocol == seq![104u8, 116u8, 116u8, 112u8]
    ||| protocol == seq![104u8, 116u8, 116u8, 112u8, 115u8]
}

/// The step is to dial the host and port of the address.
pub open spec fn dials(step: ConnectStep, url: Url) -> bool {
    step matches ConnectStep::Dial { hostname, port } && hostname@ == url.hostname@ && port
        == url.port
}

proof fn lemma_protocols(protocol: Seq<u8>)
    ensures
        proxy_protocol_known(protocol) <==> http_https_or_none(protocol),
{
    reveal_strlit("https");
    reveal_strlit("http");
    assert(ascii("https") =~= seq![104u8, 116u8, 116u8, 112u8, 115u8]);
    assert(ascii("http") =~= seq![104u8, 116u8, 116u8, 112u8]);
    assert(protocol.len() == 0 ==> protocol =~= Seq::<u8>::empty());
}

/// Proxies are spoken to in http or https, which is also meant where nothing is said.
pub proof fn proxies_speak_http_or_https(protocol: &[u8], r: bool)
    requires
        call_ensures(is_known_proxy_protocol, (protocol,), r),
    ensures
        r <==> http_https_or_none(protocol@),
{
    lemma_protocols(protocol@);
}

/// A request that names a path connects to it, with the default context, whatever else
/// it names.
pub proof fn paths_come_before_hosts<'a, const IS_SSL: bool>(
    thread: &mut HttpThread,
    client: &'a ConnectRequest,
    swept_at: u64,
    used_at: u64,
    r: Connecting<'a>,
)
    requires
        call_ensures(HttpThread::connect::<IS_SSL>, (thread, client, swept_at, used_at), r),
    ensures
        r.step is Unix <==> client.unix_socket_path@.len() > 0,
        r.step matches ConnectStep::Unix(path) ==> path@ == client.unix_socket_path@
            && r.custom_ctx is None && r.released@.len() == 0 && final(thread)@.ssl_contexts
            == old(thread)@.ssl_contexts,
{
    assert(r.step@ is Unix <==> r.step is Unix);
}

/// With the default context a request dials its proxy, if that has an address and speaks
/// a known protocol, whatever its own URL is. It dials the host of its URL exactly if it
/// has no proxy or that has no address, and a proxy that speaks anything else is an
/// error. No context is let go or handed out.
pub proof fn default_contexts_dial_the_named_proxy<'a, const IS_SSL: bool>(
    thread: &mut HttpThread,
    client: &'a ConnectRequest,
    swept_at: u64,
    used_at: u64,
    r: Connecting<'a>,
)
    requires
        call_ensures(HttpThread::connect::<IS_SSL>, (thread, client, swept_at, used_at), r),
        client.unix_socket_path@.len() == 0,
        IS_SSL && client.tls_props is Some ==> !client.tls_props->0.requires_custom_request_ctx,
    ensures
        r.custom_ctx is None,
        r.released@.len() == 0,
        final(thread)@.ssl_contexts == old(thread)@.ssl_contexts,
        client.http_proxy is None ==> dials(r.step, client.url),
        client.http_proxy matches Some(proxy) ==> {
            &&& proxy.href@.len() == 0 ==> dials(r.step, client.url)
            &&& proxy.href@.len() > 0 && http_https_or_none(proxy.protocol@) ==> dials(
                r.step,
                proxy,
            )
            &&& proxy.href@.len() > 0 && !http_https_or_none(proxy.protocol@) ==> r.step
                == ConnectStep::Fail(Error::UnsupportedProxyProtocol)
        },
{
    if let Some(proxy) = client.http_proxy {
        lemma_protocols(proxy.protocol@);
    }
}

/// The default TLS context is set up by the first request over TLS, and by no other.
/// Nothing else of the thread changes but which TLS contexts it keeps.
pub proof fn the_first_tls_request_sets_tls_up<'a, const IS_SSL: bool>(
    thread: &mut HttpThread,
    client: &'a ConnectRequest,
    swept_at: u64,
    used_at: u64,
    r: Connecting<'a>,
)
    requires
        call_ensures(HttpThread::connect::<IS_SSL>, (thread, client, swept_at, used_at), r),
    ensures
        IS_SSL ==> r.init_https == old(thread)@.lazy_https_init
            && final(thread)@.lazy_https_init is None,
        !IS_SSL ==> r.init_https is None
            && final(thread)@.lazy_https_init == old(thread)@.lazy_https_init,
        final(thread)@ == (ThreadView {
            lazy_https_init: final(thread)@.lazy_https_init,
            ssl_contexts: final(thread)@.ssl_contexts,
            ..old(thread)@
        }),
{
}

/// A request over TLS that needs a custom context gets the one that is kept for its
/// configuration exactly if that was used within half an hour, and then dials any proxy
/// that it has, or else its host. Otherwise a context is to be made for its
/// configuration.
pub proof fn custom_contexts_are_reused_for_half_an_hour<'a>(
    thread: &mut HttpThread,
    client: &'a ConnectRequest,
    swept_at: u64,
    used_at: u64,
    r: Connecting<'a>,
    config: u64,
)
    requires
        call_ensures(HttpThread::connect::<true>, (thread, client, swept_at, used_at), r),
        client.unix_socket_path@.len() == 0,
        client.tls_props matches Some(tls) && tls.requires_custom_request_ctx && tls.config
            == config,
    ensures
        r.custom_ctx is Some <==> exists|i: int|
            0 <= i < old(thread)@.ssl_contexts.len()
                && (#[trigger] old(thread)@.ssl_contexts[i]).config == config
                    && swept_at - old(thread)@.ssl_contexts[i].last_used_ns <= 1_800_000_000_000,
        r.custom_ctx matches Some(ctx) ==> {
            &&& exists|i: int|
                0 <= i < old(thread)@.ssl_contexts.len()
                    && (#[trigger] old(thread)@.ssl_contexts[i]).config == config
                        && old(thread)@.ssl_contexts[i].ctx == ctx
                    && swept_at - old(thread)@.ssl_contexts[i].last_used_ns <= 1_800_000_000_000
            &&& client.http_proxy matches Some(proxy) ==> dials(r.step, proxy)
            &&& client.http_proxy is None ==> dials(r.step, client.url)
        },
        r.custom_ctx is None ==> r.step == ConnectStep::CreateContext(config),
{
    let before = old(thread)@.ssl_contexts;
    let (kept, released) = swept(before, 0, swept_at);
    if has_config(kept, config) {
        let i = choose|i: int| 0 <= i < kept.len() && (#[trigger] kept[i]).config == config;
        lemma_evicted(before, swept_at, released, kept, kept[i]);
        assert(kept.contains(kept[i]));
        let j = before.index_of(kept[i]);
        assert(before[j].config == config);
        assert(r.custom_ctx == Some(kept[i].ctx));
        assert(before[j].ctx == kept[i].ctx);
        assert(swept_at - before[j].last_used_ns <= 1_800_000_000_000);
    }
    assert forall|i: int|
        0 <= i < before.len() && (#[trigger] before[i]).config == config && swept_at
            - before[i].last_used_ns <= 1_800_000_000_000 implies has_config(kept, config) by {
        lemma_evicted(before, swept_at, released, kept, before[i]);
        assert(before.contains(before[i]));
        let j = kept.index_of(before[i]);
        assert(kept[j].config == config);
    }
}

/// Where a custom context is needed, exactly the contexts that were not used for half an
/// hour are let go; the others stay, and the one that is used now is marked so.
pub proof fn requests_let_idle_contexts_go<'a>(
    thread: &mut HttpThread,
    client: &'a ConnectRequest,
    swept_at: u64,
    used_at: u64,
    r: Connecting<'a>,
    config: u64,
    entry: SslContextCacheEntry,
)
    requires
        call_ensures(HttpThread::connect::<true>, (thread, client, swept_at, used_at), r),
        client.unix_socket_path@.len() == 0,
        client.tls_props matches Some(tls) && tls.requires_custom_request_ctx && tls.config
            == config,
        old(thread)@.ssl_contexts.contains(entry),
    ensures
        r.released@.contains(entry) <==> swept_at - entry.last_used_ns > 1_800_000_000_000,
        swept_at - entry.last_used_ns <= 1_800_000_000_000 && entry.config != config
            ==> final(thread)@.ssl_contexts.contains(entry),
        swept_at - entry.last_used_ns <= 1_800_000_000_000 && entry.config == config
            ==> final(thread)@.ssl_contexts.contains(
            SslContextCacheEntry { config, ctx: entry.ctx, last_used_ns: used_at },
        ),
{
    let before = old(thread)@.ssl_contexts;
    let (kept, released) = swept(before, 0, swept_at);
    lemma_evicted(before, swept_at, released, kept, entry);
    lemma_released(before, swept_at, released, kept, entry);
    if swept_at - entry.last_used_ns <= 1_800_000_000_000 {
        let i = kept.index_of(entry);
        let after = final(thread)@.ssl_contexts;
        assert(after == touched(kept, config, used_at));
        if entry.config == config {
            assert(after[i] == (SslContextCacheEntry {
                config,
                ctx: entry.ctx,
                last_used_ns: used_at,
            }));
        } else {
            assert(after[i] == entry);
        }
    }
}

proof fn lemma_released(
    before: Seq<SslContextCacheEntry>,
    now: u64,
    released: Seq<SslContextCacheEntry>,
    kept: Seq<SslContextCacheEntry>,
    entry: SslContextCacheEntry,
)
    requires
        swept(before, 0, now) == (kept, released),
        before.contains(entry),
    ensures
        released.contains(entry) <==> entry.is_stale(now),
{
    broadcast use vstd::seq_lib::group_to_multiset_ensures;

    lemma_swept(before, 0, now);
    let sum = kept.to_multiset().add(released.to_multiset());
    assert(sum.count(entry) == kept.to_multiset().count(entry) + released.to_multiset().count(
        entry,
    ));
    assert(before.to_multiset().count(entry) > 0);
    if released.contains(entry) {
        let i = released.index_of(entry);
        assert(released[i].is_stale(now));
    }
    if entry.is_stale(now) {
        if kept.contains(entry) {
            let i = kept.index_of(entry);
            assert(!kept[i].is_stale(now));
        }
        assert(kept.to_multiset().count(entry) == 0);
    }
}

/// A context that was made is kept and handed to the client, which dials its proxy, if
/// that speaks a known protocol, or else its host; one that could not be made opens no
/// socket, and nothing is kept or let go.
pub proof fn made_contexts_are_kept_and_used<'a>(
    thread: &mut HttpThread,
    client: &'a ConnectRequest,
    config: u64,
    made: Result<u64, InitError>,
    now: u64,
    r: Connecting<'a>,
)
    requires
        call_ensures(
            HttpThread::custom_context_created,
            (thread, client, config, made, now),
            r,
        ),
    ensures
        r.init_https is None,
        final(thread)@ == (ThreadView {
            ssl_contexts: final(thread)@.ssl_contexts,
            ..old(thread)@
        }),
        made is Err ==> {
            &&& r.step == ConnectStep::Fail(Error::FailedToOpenSocket)
            &&& r.custom_ctx is None
            &&& r.released@.len() == 0
            &&& final(thread)@.ssl_contexts == old(thread)@.ssl_contexts
        },
        made matches Ok(ctx) ==> {
            &&& r.custom_ctx == Some(ctx)
            &&& client.http_proxy is None ==> dials(r.step, client.url)
            &&& client.http_proxy matches Some(proxy) ==> {
                &&& http_https_or_none(proxy.protocol@) ==> dials(r.step, proxy)
                &&& !http_https_or_none(proxy.protocol@) ==> r.step == ConnectStep::Fail(
                    Error::UnsupportedProxyProtocol,
                )
            }
        },
{
    if let Some(proxy) = client.http_proxy {
        lemma_protocols(proxy.protocol@);
    }
}

/// However contexts are made, the cache holds no more than sixty, keeps the new one as
/// long as the clock does not go back, and then lets at most one go, that was used the
/// longest ago.
pub proof fn made_contexts_stay_within_sixty<'a>(
    thread: &mut HttpThread,
    client: &'a ConnectRequest,
    config: u64,
    ctx: u64,
    now: u64,
    r: Connecting<'a>,
)
    requires
        call_ensures(
            HttpThread::custom_context_created,
            (thread, client, config, Ok::<u64, InitError>(ctx), now),
            r,
        ),
        old(thread)@.ssl_contexts.len() <= 60,
        forall|i: int|
            0 <= i < old(thread)@.ssl_contexts.len()
                ==> (#[trigger] old(thread)@.ssl_contexts[i]).last_used_ns <= now,
    ensures
        final(thread)@.ssl_contexts.len() <= 60,
        final(thread)@.ssl_contexts.contains(
            SslContextCacheEntry { config, ctx, last_used_ns: now },
        ),
        r.released@.len() <= 1,
        r.released@.len() == 1 ==> old(thread)@.ssl_contexts.len() == 60 && forall|i: int|
            0 <= i < 60 ==> r.released@[0].last_used_ns
                <= (#[trigger] old(thread)@.ssl_contexts[i]).last_used_ns,
{
    let before = old(thread)@.ssl_contexts;
    let entry = SslContextCacheEntry { config, ctx, last_used_ns: now };
    let gone = if r.released@.len() == 0 {
        None
    } else {
        Some(r.released@[0])
    };
    cache_stays_bounded(before, entry, gone, final(thread)@.ssl_contexts);
    new_contexts_are_kept(before, entry, gone, final(thread)@.ssl_contexts);
}

/// A sweep lets exactly those contexts go that were last used more than half an hour
/// before, and keeps the others as they are. A clock that has gone back makes none idle.
pub proof fn sweeps_let_idle_contexts_go(
    cache: &mut SslContextCache,
    now: u64,
    released: Vec<SslContextCacheEntry>,
)
    requires
        call_ensures(SslContextCache::evict_stale_ssl_contexts, (cache, now), released),
    ensures
        forall|i: int|
            0 <= i < final(cache)@.len() ==> now - (#[trigger] final(cache)@[i]).last_used_ns
                <= 1_800_000_000_000,
        forall|i: int|
            0 <= i < released@.len() ==> now - (#[trigger] released@[i]).last_used_ns
                > 1_800_000_000_000,
        forall|entry: SslContextCacheEntry| #[trigger]
            final(cache)@.contains(entry) <==> old(cache)@.contains(entry) && now
                - entry.last_used_ns <= 1_800_000_000_000,
        forall|entry: SslContextCacheEntry| #[trigger]
            released@.contains(entry) <==> old(cache)@.contains(entry) && now
                - entry.last_used_ns > 1_800_000_000_000,
        final(cache)@.len() + released@.len() == old(cache)@.len(),
{
    broadcast use vstd::seq_lib::group_to_multiset_ensures;

    let before = old(cache)@;
    let kept = final(cache)@;
    lemma_swept(before, 0, now);
    assert(kept.to_multiset().add(released@.to_multiset()).len() == before.to_multiset().len());
    assert forall|i: int| 0 <= i < kept.len() implies now - (#[trigger] kept[i]).last_used_ns
        <= 1_800_000_000_000 by {
        assert(!kept[i].is_stale(now));
    }
    assert forall|i: int| 0 <= i < released@.len() implies now - (#[trigger]
    released@[i]).last_used_ns > 1_800_000_000_000 by {
        assert(released@[i].is_stale(now));
    }
    assert forall|entry: SslContextCacheEntry| #[trigger] kept.contains(entry) <==> before.contains(
        entry,
    ) && now - entry.last_used_ns <= 1_800_000_000_000 by {
        lemma_evicted(before, now, released@, kept, entry);
    }
    assert forall|entry: SslContextCacheEntry| #[trigger]
        released@.contains(entry) <==> before.contains(entry) && now - entry.last_used_ns
            > 1_800_000_000_000 by {
        if before.contains(entry) {
            lemma_released(before, now, released@, kept, entry);
        } else if released@.contains(entry) {
            assert(released@.to_multiset().count(entry) > 0);
            assert(kept.to_multiset().add(released@.to_multiset()).count(entry) > 0);
        }
    }
}

proof fn lemma_swept_from(kept: Seq<SslContextCacheEntry>, i: int, now: u64)
    requires
        0 <= i <= kept.len(),
        forall|j: int| 0 <= j < i ==> !(#[trigger] kept[j]).is_stale(now),
    ensures
        swept(kept, 0, now) == swept(kept, i, now),
    decreases i,
{
    if i > 0 {
        lemma_swept_from(kept, i - 1, now);
        assert(!kept[i - 1].is_stale(now));
    }
}

/// A sweep leaves everything as it is if nothing is idle.
pub proof fn sweeps_leave_used_contexts_alone(
    cache: &mut SslContextCache,
    now: u64,
    released: Vec<SslContextCacheEntry>,
)
    requires
        call_ensures(SslContextCache::evict_stale_ssl_contexts, (cache, now), released),
        forall|j: int|
            0 <= j < old(cache)@.len() ==> now - (#[trigger] old(cache)@[j]).last_used_ns
                <= 1_800_000_000_000,
    ensures
        released@.len() == 0,
        final(cache)@ == old(cache)@,
{
    let before = old(cache)@;
    assert forall|j: int| 0 <= j < before.len() implies !(#[trigger] before[j]).is_stale(now) by {
        assert(now - before[j].last_used_ns <= 1_800_000_000_000);
    }
    lemma_swept_from(before, before.len() as int, now);
}

/// A sweep goes from the front to the back: it lets the first idle context go first and
/// puts the last one in its place, and goes on as a sweep of what is then there would.
pub proof fn sweeps_go_from_front_to_back(
    cache: &mut SslContextCache,
    now: u64,
    released: Vec<SslContextCacheEntry>,
    rest: &mut SslContextCache,
    later: Vec<SslContextCacheEntry>,
    i: int,
)
    requires
        call_ensures(SslContextCache::evict_stale_ssl_contexts, (cache, now), released),
        call_ensures(SslContextCache::evict_stale_ssl_contexts, (rest, now), later),
        0 <= i < old(cache)@.len(),
        now - old(cache)@[i].last_used_ns > 1_800_000_000_000,
        forall|j: int|
            0 <= j < i ==> now - (#[trigger] old(cache)@[j]).last_used_ns <= 1_800_000_000_000,
        last_takes_the_place(old(cache)@, i, old(rest)@),
    ensures
        released@ == seq![old(cache)@[i]] + later@,
        final(cache)@ == final(rest)@,
{
    let before = old(cache)@;
    let after = old(rest)@;
    assert(after =~= swap_removed(before, i));
    assert forall|j: int| 0 <= j < i implies !(#[trigger] before[j]).is_stale(now)
        && !after[j].is_stale(
        now,
    ) by {
        assert(now - before[j].last_used_ns <= 1_800_000_000_000);
        assert(after[j] == before[j]);
    }
    lemma_swept_from(before, i, now);
    lemma_swept_from(after, i, now);
    assert(before[i].is_stale(now));
}

/// A request that needs a custom context sweeps as the cache itself does, and then notes
/// its use.
pub proof fn requests_sweep_first<'a>(
    thread: &mut HttpThread,
    client: &'a ConnectRequest,
    swept_at: u64,
    used_at: u64,
    r: Connecting<'a>,
    config: u64,
    cache: &mut SslContextCache,
    released: Vec<SslContextCacheEntry>,
)
    requires
        call_ensures(HttpThread::connect::<true>, (thread, client, swept_at, used_at), r),
        client.unix_socket_path@.len() == 0,
        client.tls_props matches Some(tls) && tls.requires_custom_request_ctx && tls.config
            == config,
        call_ensures(SslContextCache::evict_stale_ssl_contexts, (cache, swept_at), released),
        old(cache)@ == old(thread)@.ssl_contexts,
    ensures
        r.released@ == released@,
        final(thread)@.ssl_contexts.len() == final(cache)@.len(),
        forall|i: int|
            0 <= i < final(cache)@.len() ==> {
                let left = #[trigger] final(cache)@[i];
                let used = final(thread)@.ssl_contexts[i];
                &&& used.config == left.config
                &&& used.ctx == left.ctx
                &&& left.config == config ==> used.last_used_ns == used_at
                &&& left.config != config ==> used.last_used_ns == left.last_used_ns
            },
{
}

/// The entry at `i` has left, the last one has taken its place, and the others stand
/// where they stood.
pub open spec fn last_takes_the_place(
    before: Seq<SslContextCacheEntry>,
    i: int,
    after: Seq<SslContextCacheEntry>,
) -> bool {
    &&& after.len() == before.len() - 1
    &&& forall|j: int| 0 <= j < after.len() && j != i ==> #[trigger] after[j] == before[j]
    &&& i < after.len() ==> after[i] == before[before.len() - 1]
}

/// The context that makes room is the first of those that were used the longest ago, and
/// every other stays.
pub proof fn the_longest_unused_context_makes_room(
    cache: &mut SslContextCache,
    released: Option<SslContextCacheEntry>,
)
    requires
        call_ensures(SslContextCache::evict_oldest_ssl_context, (cache,), released),
    ensures
        released is None <==> old(cache)@.len() == 0,
        released is None ==> final(cache)@ == old(cache)@,
        released matches Some(gone) ==> {
            &&& old(cache)@.contains(gone)
            &&& forall|i: int|
                0 <= i < old(cache)@.len()
                    ==> gone.last_used_ns <= (#[trigger] old(cache)@[i]).last_used_ns
            &&& final(cache)@.to_multiset() == old(cache)@.to_multiset().remove(gone)
            &&& final(cache)@.len() == old(cache)@.len() - 1
            &&& exists|i: int|
                0 <= i < old(cache)@.len() && (#[trigger] old(cache)@[i]) == gone && (forall|j: int|
                    0 <= j < i ==> gone.last_used_ns < (#[trigger] old(cache)@[j]).last_used_ns)
                    && last_takes_the_place(old(cache)@, i, final(cache)@)
        },
{
    if let Some(gone) = released {
        let i = choose|i: int| #[trigger]
            is_oldest(old(cache)@, i) && gone == old(cache)@[i] && final(cache)@
                == swap_removed(old(cache)@, i);
        lemma_swap_removed(old(cache)@, i);
    }
}

/// A context is found under its configuration alone, and its use is the only thing that
/// is noted.
pub proof fn uses_are_noted(cache: &mut SslContextCache, config: u64, now: u64, ctx: Option<u64>)
    requires
        call_ensures(SslContextCache::touch, (cache, config, now), ctx),
        old(cache).wf(),
    ensures
        final(cache)@.len() == old(cache)@.len(),
        ctx is Some <==> exists|i: int|
            0 <= i < old(cache)@.len() && (#[trigger] old(cache)@[i]).config == config,
        forall|i: int|
            0 <= i < old(cache)@.len() ==> {
                let before = #[trigger] old(cache)@[i];
                let after = final(cache)@[i];
                &&& after.config == before.config
                &&& after.ctx == before.ctx
                &&& before.config == config ==> ctx == Some(before.ctx) && after.last_used_ns
                    == now
                &&& before.config != config ==> after.last_used_ns == before.last_used_ns
            },
{
}

/// A context that is stored is found under its configuration at once, in the place of an
/// earlier one, and the others stay as they are unless there are more than sixty.
pub proof fn stored_contexts_are_found(
    cache: &mut SslContextCache,
    config: u64,
    ctx: u64,
    now: u64,
    released: Option<SslContextCacheEntry>,
)
    requires
        call_ensures(SslContextCache::insert, (cache, config, ctx, now), released),
        old(cache)@.len() < 60,
    ensures
        released is None,
        final(cache)@.contains(SslContextCacheEntry { config, ctx, last_used_ns: now }),
        forall|i: int|
            0 <= i < old(cache)@.len() && (#[trigger] old(cache)@[i]).config != config
                ==> final(cache)@[i] == old(cache)@[i],
        forall|i: int|
            0 <= i < old(cache)@.len() && (#[trigger] old(cache)@[i]).config == config
                ==> final(cache)@[i]
                    == (SslContextCacheEntry { config, ctx, last_used_ns: now })
                        && final(cache)@.len() == old(cache)@.len(),
        (forall|i: int|
            0 <= i < old(cache)@.len() ==> (#[trigger] old(cache)@[i]).config != config)
                ==> final(cache)@
                    == old(cache)@.push(SslContextCacheEntry { config, ctx, last_used_ns: now }),
{
    let before = old(cache)@;
    let entry = SslContextCacheEntry { config, ctx, last_used_ns: now };
    let all = stored(before, entry);
    assert(final(cache)@ == all);
    if has_config(before, config) {
        let i = choose|i: int| 0 <= i < before.len() && (#[trigger] before[i]).config == config;
        assert(all[i] == entry);
    } else {
        assert(all[before.len() as int] == entry);
        assert forall|i: int| 0 <= i < before.len() implies (#[trigger] before[i]).config
            != config by {}
    }
}

/// A context is kept in the place of an earlier one for its configuration, if there is
/// one, and else besides the others. If that comes to more than sixty, one leaves that
/// was used no later than any that stays.
pub open spec fn kept_among_sixty(
    before: Seq<SslContextCacheEntry>,
    entry: SslContextCacheEntry,
    gone: Option<SslContextCacheEntry>,
    after: Seq<SslContextCacheEntry>,
) -> bool {
    let known = exists|i: int| 0 <= i < before.len()
        && (#[trigger] before[i]).config == entry.config;
    let count = before.len() + if known {
        0int
    } else {
        1int
    };
    &&& gone is Some <==> count > 60
    &&& gone is None ==> after.len() == count
    &&& gone is Some ==> after.len() == count - 1
    &&& after.contains(entry) || gone == Some(entry)
    &&& forall|e: SslContextCacheEntry|
        #![trigger before.contains(e)]
        #![trigger after.contains(e)]
        e.config != entry.config ==> (before.contains(e) <==> after.contains(e) || gone == Some(e))
    &&& gone matches Some(g) ==> g.last_used_ns <= entry.last_used_ns && forall|i: int|
        0 <= i < after.len() ==> g.last_used_ns <= (#[trigger] after[i]).last_used_ns
}

proof fn lemma_stored_members(
    before: Seq<SslContextCacheEntry>,
    entry: SslContextCacheEntry,
    e: SslContextCacheEntry,
)
    ensures
        stored(before, entry).contains(entry),
        e.config != entry.config ==> (before.contains(e) <==> stored(before, entry).contains(e)),
{
    let all = stored(before, entry);
    if has_config(before, entry.config) {
        let i = choose|i: int|
            0 <= i < before.len() && (#[trigger] before[i]).config == entry.config;
        assert(all[i] == entry);
    } else {
        assert(all[before.len() as int] == entry);
    }
    if e.config != entry.config {
        if before.contains(e) {
            let i = before.index_of(e);
            assert(all[i] == e);
        }
        if all.contains(e) {
            let i = all.index_of(e);
            assert(i < before.len());
            assert(before[i] == e);
        }
    }
}

proof fn lemma_kept_among_sixty(
    before: Seq<SslContextCacheEntry>,
    entry: SslContextCacheEntry,
    gone: Option<SslContextCacheEntry>,
    after: Seq<SslContextCacheEntry>,
)
    requires
        inserted(before, entry, gone, after),
    ensures
        kept_among_sixty(before, entry, gone, after),
{
    let all = stored(before, entry);
    lemma_stored_members(before, entry, entry);
    match gone {
        None => {
            assert forall|e: SslContextCacheEntry| e.config != entry.config implies (
            #[trigger] before.contains(e) <==> after.contains(e)) by {
                lemma_stored_members(before, entry, e);
            }
        },
        Some(g) => {
            let i = choose|i: int| #[trigger]
                is_oldest(all, i) && g == all[i] && after == swap_removed(all, i);
            assert forall|e: SslContextCacheEntry| #[trigger] all.contains(e) <==> after.contains(e)
                || e == g by {
                if all.contains(e) {
                    let j = all.index_of(e);
                    if j != i {
                        if j < after.len() {
                            assert(after[j] == e);
                        } else {
                            assert(after[i] == e);
                        }
                    }
                }
                if after.contains(e) {
                    let j = after.index_of(e);
                    if j == i {
                        assert(all[all.len() - 1] == e);
                    } else {
                        assert(all[j] == e);
                    }
                }
            }
            assert forall|e: SslContextCacheEntry| e.config != entry.config implies (
            #[trigger] before.contains(e) <==> after.contains(e) || e == g) by {
                lemma_stored_members(before, entry, e);
                assert(all.contains(e) <==> after.contains(e) || e == g);
            }
            let k = all.index_of(entry);
            assert(g.last_used_ns <= all[k].last_used_ns);
            assert(after.contains(entry) || entry == g);
            assert forall|j: int| 0 <= j < after.len() implies g.last_used_ns <= (#[trigger]
            after[j]).last_used_ns by {
                assert(after.contains(after[j]));
                let m = all.index_of(after[j]);
                assert(g.last_used_ns <= all[m].last_used_ns);
            }
        },
    }
}

/// However a context comes to be kept, the cache makes room for it.
pub proof fn caches_make_room(
    cache: &mut SslContextCache,
    config: u64,
    ctx: u64,
    now: u64,
    released: Option<SslContextCacheEntry>,
)
    requires
        call_ensures(SslContextCache::insert, (cache, config, ctx, now), released),
    ensures
        kept_among_sixty(
            old(cache)@,
            SslContextCacheEntry { config, ctx, last_used_ns: now },
            released,
            final(cache)@,
        ),
{
    let entry = SslContextCacheEntry { config, ctx, last_used_ns: now };
    lemma_kept_among_sixty(old(cache)@, entry, released, final(cache)@);
}

/// The thread makes room for a context that was made, and lets go what leaves for it.
pub proof fn threads_make_room<'a>(
    thread: &mut HttpThread,
    client: &'a ConnectRequest,
    config: u64,
    ctx: u64,
    now: u64,
    r: Connecting<'a>,
)
    requires
        call_ensures(
            HttpThread::custom_context_created,
            (thread, client, config, Ok::<u64, InitError>(ctx), now),
            r,
        ),
    ensures
        r.released@.len() <= 1,
        kept_among_sixty(
            old(thread)@.ssl_contexts,
            SslContextCacheEntry { config, ctx, last_used_ns: now },
            if r.released@.len() == 1 {
                Some(r.released@[0])
            } else {
                None
            },
            final(thread)@.ssl_contexts,
        ),
{
    let entry = SslContextCacheEntry { config, ctx, last_used_ns: now };
    let gone = if r.released@.len() == 0 {
        None
    } else {
        Some(r.released@[0])
    };
    lemma_kept_among_sixty(old(thread)@.ssl_contexts, entry, gone, final(thread)@.ssl_contexts);
}

/// A position shows the context that stands there, and the count is that of all.
pub proof fn caches_show_their_contexts(
    cache: &SslContextCache,
    count: usize,
    i: usize,
    entry: SslContextCacheEntry,
    empty: SslContextCache,
)
    ensures
        call_ensures(SslContextCache::count, (cache,), count) ==> count == cache@.len(),
        call_ensures(SslContextCache::get, (cache, i), entry) ==> entry == cache@[i as int],
        call_ensures(SslContextCache::new, (), empty) ==> empty@.len() == 0,
{
}

/// A request's socket is the one that was noted last, until it is forgotten; other
/// requests keep theirs.
pub proof fn sockets_are_found_by_request(
    tracker: &mut AbortTracker,
    id: u32,
    socket: AnySocket,
    found: Option<AnySocket>,
)
    ensures
        call_ensures(AbortTracker::put, (tracker, id, socket), ()) ==> {
            &&& final(tracker)@.contains_key(id) && final(tracker)@[id] == socket
            &&& forall|other: u32|
                other != id ==> (#[trigger] final(tracker)@.contains_key(other)
                    <==> old(tracker)@.contains_key(other))
            &&& forall|other: u32|
                other != id ==> #[trigger] final(tracker)@[other] == old(tracker)@[other]
        },
        call_ensures(AbortTracker::remove, (tracker, id), found) ==> {
            &&& found is Some <==> old(tracker)@.contains_key(id)
            &&& found matches Some(s) ==> s == old(tracker)@[id]
            &&& !final(tracker)@.contains_key(id)
            &&& forall|other: u32|
                other != id ==> (#[trigger] final(tracker)@.contains_key(other)
                    <==> old(tracker)@.contains_key(other))
            &&& forall|other: u32|
                other != id ==> #[trigger] final(tracker)@[other] == old(tracker)@[other]
        },
{
}

/// What is found for a request is what is noted for it.
pub proof fn noted_sockets_are_found(tracker: &AbortTracker, id: u32, found: Option<AnySocket>)
    requires
        call_ensures(AbortTracker::get, (tracker, id), found),
    ensures
        found is Some <==> tracker@.contains_key(id),
        found matches Some(s) ==> s == tracker@[id],
{
}

/// Whoever owns a socket hears of an abort, of bytes to write and of a body to drain;
/// a socket that nobody owns is closed, and nothing is written to it or read from it.
/// Nothing is written to a socket that is closed or shut down, nor for a client whose
/// body is no stream, and only the last write says that the body has ended.
pub proof fn owners_hear_of_their_socket(
    tagged: Tagged,
    shutdown: SocketShutdown,
    drain: SocketDrain,
    is_closed: bool,
    is_shutdown: bool,
    is_stream: bool,
    kind: WriteMessageType,
    write: SocketWrite,
)
    ensures
        call_ensures(socket_shutdown, (tagged,), shutdown) ==> {
            &&& tagged matches Tagged::Client(c) ==> shutdown == SocketShutdown::CloseAndAbort(c)
            &&& tagged matches Tagged::Session(s) ==> shutdown == SocketShutdown::AbortByHttpId(s)
            &&& tagged is Other ==> shutdown is Close
        },
        call_ensures(socket_drain, (tagged,), drain) ==> {
            &&& tagged matches Tagged::Client(c) ==> drain == SocketDrain::Client(c)
            &&& tagged matches Tagged::Session(s) ==> drain == SocketDrain::Session(s)
            &&& tagged is Other ==> drain is Nothing
        },
        call_ensures(socket_write, (is_closed, is_shutdown, tagged, is_stream, kind), write) ==> {
            &&& is_closed || is_shutdown || tagged is Other ==> write is Nothing
            &&& tagged is Client && !is_stream ==> write is Nothing
            &&& !is_closed && !is_shutdown && is_stream ==> (tagged matches Tagged::Client(c)
                ==> write matches SocketWrite::FlushStream { client, ended } && client == c && (
            ended <==> kind is End))
            &&& !is_closed && !is_shutdown ==> (tagged matches Tagged::Session(s) ==> write matches
                SocketWrite::StreamBody { session, ended } && session == s && (ended <==> kind
                is End))
        },
{
}

/// A round takes all messages of a sort, in their order, and goes on to the next sort
/// only once none is left: first what is to be read, then what is to be written, then
/// what is aborted, then connects, tunnels and at last new requests.
pub proof fn rounds_take_everything_in_turn(
    thread: &mut HttpThread,
    phase: DrainPhase,
    r: (DrainAction, DrainPhase),
)
    requires
        call_ensures(HttpThread::drain_events, (thread, phase), r),
    ensures
        phase is ResponseBodyDrains ==> {
            &&& r.0 matches DrainAction::ResponseBodyDrains(batch)
            &&& batch@ == old(thread)@.queued_response_body_drains
            &&& r.1 is Writes <==> batch@.len() == 0
            &&& r.1 is ResponseBodyDrains <==> batch@.len() > 0
            &&& final(thread)@ == (ThreadView {
                queued_response_body_drains: Seq::empty(),
                ..old(thread)@
            })
        },
        phase is Writes ==> {
            &&& r.0 matches DrainAction::Writes(batch)
            &&& batch@ == old(thread)@.queued_writes
            &&& r.1 is Shutdowns <==> batch@.len() == 0
            &&& r.1 is Writes <==> batch@.len() > 0
            &&& final(thread)@ == (ThreadView { queued_writes: Seq::empty(), ..old(thread)@ })
        },
        phase is Shutdowns ==> {
            &&& r.0 matches DrainAction::Shutdowns(batch)
            &&& batch@ == old(thread)@.queued_shutdowns
            &&& r.1 is ResolvedConnects <==> batch@.len() == 0
            &&& r.1 is Shutdowns <==> batch@.len() > 0
            &&& final(thread)@ == (ThreadView { queued_shutdowns: Seq::empty(), ..old(thread)@ })
        },
        phase is ResolvedConnects ==> r.0 is ResolvedConnects && r.1 is ProxyDerefs
            && final(thread)@ == old(thread)@,
        phase is ProxyDerefs ==> r.0 is ProxyDerefs && r.1 is Tasks
            && final(thread)@ == old(thread)@,
        phase is Tasks ==> r.0 is Tasks && r.1 is ResponseBodyDrains
            && final(thread)@ == old(thread)@,
{
}

/// Messages find the socket of their request: a body is drained only where there is one,
/// bytes go there or else to HTTP/3, which hears whether the body has ended.
pub proof fn messages_find_the_socket(
    thread: &HttpThread,
    drain: DrainMessage,
    drained: Option<AnySocket>,
    write: WriteMessage,
    step: WriteStep,
)
    ensures
        call_ensures(HttpThread::drain_response_body, (thread, drain), drained) ==> {
            &&& drained is Some <==> thread@.sockets.contains_key(drain.async_http_id)
            &&& drained matches Some(s) ==> s == thread@.sockets[drain.async_http_id]
        },
        call_ensures(HttpThread::write_request, (thread, write), step) ==> {
            &&& step is Socket <==> thread@.sockets.contains_key(write.async_http_id)
            &&& step matches WriteStep::Socket(s) ==> s == thread@.sockets[write.async_http_id]
            &&& step matches WriteStep::Http3 { ended } ==> (ended <==> write.kind is End)
        },
{
}

/// A request that is aborted gives its socket up, and no other request does.
pub proof fn aborts_free_the_socket(
    thread: &mut HttpThread,
    message: ShutdownMessage,
    step: ShutdownStep,
)
    requires
        call_ensures(HttpThread::shut_down, (thread, message), step),
    ensures
        step is Socket <==> old(thread)@.sockets.contains_key(message.async_http_id),
        step matches ShutdownStep::Socket(s) ==> s == old(thread)@.sockets[message.async_http_id],
        !final(thread)@.sockets.contains_key(message.async_http_id),
        forall|other: u32|
            other != message.async_http_id ==> (#[trigger] final(thread)@.sockets.contains_key(
                other,
            ) <==> old(thread)@.sockets.contains_key(other)),
        forall|other: u32|
            other != message.async_http_id
                ==> #[trigger] final(thread)@.sockets[other] == old(thread)@.sockets[other],
        final(thread)@ == (ThreadView { sockets: final(thread)@.sockets, ..old(thread)@ }),
{
}

/// The default TLS context is asked first about a request without a socket, then each
/// custom one, then HTTP/3. That it has not started is noted once all have been asked,
/// and not before.
pub proof fn everyone_is_asked_about_an_abort(
    thread: &mut HttpThread,
    asked: usize,
    r: AbortQuery,
)
    requires
        call_ensures(HttpThread::abort_without_socket, (thread, asked), r),
    ensures
        asked == 0 ==> r == AbortQuery::Context(old(thread)@.https_context),
        1 <= asked <= old(thread)@.ssl_contexts.len() ==> r == AbortQuery::Context(
            old(thread)@.ssl_contexts[asked - 1].ctx,
        ),
        r is Http3 <==> asked == old(thread)@.ssl_contexts.len() + 1,
        r is NotStarted <==> asked > old(thread)@.ssl_contexts.len() + 1,
        r is NotStarted ==> final(thread)@.has_pending_queued_abort,
        !(r is NotStarted) ==> final(thread)@.has_pending_queued_abort
            == old(thread)@.has_pending_queued_abort,
        final(thread)@ == (ThreadView {
            has_pending_queued_abort: final(thread)@.has_pending_queued_abort,
            ..old(thread)@
        }),
{
}

proof fn lemma_owed_counts(ids: Seq<TunnelId>, id: TunnelId)
    ensures
        owed(ids, id) == ids.to_multiset().count(id),
    decreases ids.len(),
{
    broadcast use vstd::seq_lib::group_to_multiset_ensures;

    if ids.len() > 0 {
        lemma_owed_counts(ids.drop_last(), id);
        assert(ids =~= ids.drop_last().push(ids.last()));
    } else {
        assert(ids.to_multiset().len() == 0);
    }
}

/// Each queued return of a reference gives one back: a tunnel loses as many as are
/// queued for it, goes if those were all, and others stay as they are.
pub proof fn queued_references_are_given_back(
    thread: &mut HttpThread,
    tunnels: &mut TunnelHeap,
    id: TunnelId,
)
    requires
        call_ensures(HttpThread::drain_proxy_derefs, (thread, tunnels), ()),
        old(tunnels)@.contains_key(id),
        old(tunnels)@[id].ref_count > 0,
        old(thread)@.queued_proxy_derefs.to_multiset().count(id) <= old(tunnels)@[id].ref_count,
    ensures
        final(thread)@ == (ThreadView { queued_proxy_derefs: Seq::empty(), ..old(thread)@ }),
        final(tunnels)@.contains_key(id)
            <==> old(thread)@.queued_proxy_derefs.to_multiset().count(id)
            < old(tunnels)@[id].ref_count,
        final(tunnels)@.contains_key(id) ==> {
            &&& final(tunnels)@[id].ref_count == old(tunnels)@[id].ref_count
                - old(thread)@.queued_proxy_derefs.to_multiset().count(id)
            &&& final(tunnels)@[id] == (TunnelView {
                ref_count: final(tunnels)@[id].ref_count,
                ..old(tunnels)@[id]
            })
        },
        forall|other: TunnelId|
            !old(tunnels)@.contains_key(other)
                ==> !(#[trigger] final(tunnels)@.contains_key(other)),
{
    lemma_owed_counts(old(thread)@.queued_proxy_derefs, id);
}

/// Whether the queued references are held is whether each tunnel is there and is held at
/// least as often as a reference to it is queued.
pub proof fn held_references_are_recognised(thread: &HttpThread, tunnels: &TunnelHeap, r: bool)
    requires
        call_ensures(HttpThread::proxy_derefs_are_held, (thread, tunnels), r),
    ensures
        r <==> forall|i: int|
            0 <= i < thread@.queued_proxy_derefs.len() ==> tunnels@.contains_key(
                #[trigger] thread@.queued_proxy_derefs[i],
            ) && thread@.queued_proxy_derefs.to_multiset().count(thread@.queued_proxy_derefs[i])
                <= tunnels@[thread@.queued_proxy_derefs[i]].ref_count,
{
    let ids = thread@.queued_proxy_derefs;
    assert forall|i: int| 0 <= i < ids.len() implies owed(ids, #[trigger] ids[i])
        == ids.to_multiset().count(ids[i]) by {
        lemma_owed_counts(ids, ids[i]);
    }
}

/// Requests are looked at unless as many run as may and none that waits was aborted. The
/// ones that had to wait are then looked at again, and the note of an abort is gone.
pub proof fn waiting_requests_are_looked_at(
    thread: &mut HttpThread,
    active: usize,
    max: usize,
    r: Option<Admission>,
)
    requires
        call_ensures(HttpThread::admit_tasks, (thread, active, max), r),
    ensures
        active < max ==> r is Some,
        old(thread)@.has_pending_queued_abort ==> r is Some,
        active >= max && !old(thread)@.has_pending_queued_abort ==> r is None && final(thread)@
            == old(thread)@,
        r matches Some(admission) ==> {
            &&& admission@.pending == old(thread)@.deferred_tasks
            &&& admission@.active == active
            &&& admission@.max == max
            &&& final(thread)@ == (ThreadView {
                has_pending_queued_abort: false,
                deferred_tasks: Seq::empty(),
                ..old(thread)@
            })
        },
{
}

/// A request starts if it was aborted or fewer run than may, and else waits behind the
/// others that wait.
pub proof fn requests_start_or_wait(
    thread: &mut HttpThread,
    admission: &Admission,
    task: TaskId,
    aborted: bool,
    start: bool,
)
    requires
        call_ensures(HttpThread::decide_on, (thread, admission, task, aborted), start),
    ensures
        aborted ==> start,
        admission@.active < admission@.max ==> start,
        !aborted && admission@.active >= admission@.max ==> !start,
        start ==> final(thread)@ == old(thread)@,
        !start ==> final(thread)@ == (ThreadView {
            deferred_tasks: old(thread)@.deferred_tasks.push(task),
            ..old(thread)@
        }),
{
}

/// Those that had to wait are looked at first, then the others in the order in which
/// they came, each once; none is left out.
pub proof fn requests_are_looked_at_in_order(
    admission: &mut Admission,
    thread: &mut HttpThread,
    r: Option<TaskId>,
)
    requires
        call_ensures(Admission::next_task, (admission, thread), r),
    ensures
        r is None <==> old(admission)@.pending.len() == 0 && old(thread)@.queued_tasks.len() == 0,
        r matches Some(task)
            ==> seq![task] + (final(admission)@.pending + final(thread)@.queued_tasks)
                == old(admission)@.pending + old(thread)@.queued_tasks,
        final(admission)@.active == old(admission)@.active,
        final(admission)@.max == old(admission)@.max,
        final(thread)@ == (ThreadView {
            queued_tasks: final(thread)@.queued_tasks,
            ..old(thread)@
        }),
        old(admission)@.pending.len() > 0 ==> final(thread)@ == old(thread)@,
{
    if let Some(task) = r {
        assert(seq![task] + (final(admission)@.pending + final(thread)@.queued_tasks)
            =~= old(admission)@.pending + old(thread)@.queued_tasks);
    }
}

/// Only how many run changes when a request has started.
pub proof fn starts_are_counted(admission: &mut Admission, active: usize)
    requires
        call_ensures(Admission::started, (admission, active), ()),
    ensures
        final(admission)@.active == active,
        final(admission)@.max == old(admission)@.max,
        final(admission)@.pending == old(admission)@.pending,
{
}

/// What is queued goes behind what is queued already, nothing else changes, and the loop
/// is woken exactly if it runs.
pub proof fn queues_keep_their_order(
    thread: &mut HttpThread,
    id: u32,
    kind: WriteMessageType,
    proxy: TunnelId,
    wake: bool,
)
    ensures
        call_ensures(HttpThread::schedule_response_body_drain, (thread, id), wake) ==> {
            &&& wake == old(thread)@.has_awoken
            &&& final(thread)@ == (ThreadView {
                queued_response_body_drains: old(thread)@.queued_response_body_drains.push(
                    DrainMessage { async_http_id: id },
                ),
                ..old(thread)@
            })
        },
        call_ensures(HttpThread::schedule_shutdown, (thread, id), wake) ==> {
            &&& wake == old(thread)@.has_awoken
            &&& final(thread)@ == (ThreadView {
                queued_shutdowns: old(thread)@.queued_shutdowns.push(
                    ShutdownMessage { async_http_id: id },
                ),
                ..old(thread)@
            })
        },
        call_ensures(HttpThread::schedule_request_write, (thread, id, kind), wake) ==> {
            &&& wake == old(thread)@.has_awoken
            &&& final(thread)@ == (ThreadView {
                queued_writes: old(thread)@.queued_writes.push(
                    WriteMessage { async_http_id: id, kind },
                ),
                ..old(thread)@
            })
        },
        call_ensures(HttpThread::schedule_proxy_deref, (thread, proxy), wake) ==> {
            &&& wake == old(thread)@.has_awoken
            &&& final(thread)@ == (ThreadView {
                queued_proxy_derefs: old(thread)@.queued_proxy_derefs.push(proxy),
                ..old(thread)@
            })
        },
{
}

/// A batch of requests is queued whole and in order; an empty one wakes nobody.
pub proof fn batches_are_queued_whole(thread: &mut HttpThread, batch: Vec<TaskId>, wake: bool)
    requires
        call_ensures(HttpThread::schedule, (thread, batch), wake),
    ensures
        wake <==> batch@.len() > 0 && old(thread)@.has_awoken,
        final(thread)@.queued_tasks.len() == old(thread)@.queued_tasks.len() + batch@.len(),
        forall|i: int|
            0 <= i < old(thread)@.queued_tasks.len() ==> #[trigger] final(thread)@.queued_tasks[i]
                == old(thread)@.queued_tasks[i],
        forall|i: int|
            0 <= i < batch@.len()
                ==> #[trigger] final(thread)@.queued_tasks[old(thread)@.queued_tasks.len() + i]
                    == batch@[i],
        final(thread)@ == (ThreadView {
            queued_tasks: final(thread)@.queued_tasks,
            ..old(thread)@
        }),
{
}

/// The thread tells its contexts, its loop and whether it runs.
pub proof fn threads_tell_their_handles<const IS_SSL: bool>(
    thread: &HttpThread,
    context: u64,
    contexts: Contexts,
    uws_loop: u64,
    wake: bool,
    needs: bool,
)
    ensures
        call_ensures(HttpThread::context::<IS_SSL>, (thread,), context) ==> {
            &&& IS_SSL ==> context == thread.https_context
            &&& !IS_SSL ==> context == thread.http_context
        },
        call_ensures(HttpThread::contexts, (thread,), contexts) ==> contexts.http
            == thread.http_context && contexts.https == thread.https_context,
        call_ensures(HttpThread::uws_loop, (thread,), uws_loop) ==> uws_loop == thread.uws_loop,
        call_ensures(HttpThread::wakeup, (thread,), wake) ==> (wake <==> thread.has_awoken),
        call_ensures(HttpThread::needs_deflater, (thread,), needs) ==> (needs
            <==> thread.lazy_libdeflater is None),
{
}

/// A thread that has not started has nothing queued, keeps nothing and cannot be woken.
pub proof fn new_threads_are_idle(http: u64, https: u64, thread: HttpThread)
    requires
        call_ensures(HttpThread::new, (http, https), thread),
    ensures
        thread@.http_context == http,
        thread@.https_context == https,
        thread@.queued_tasks.len() == 0,
        thread@.deferred_tasks.len() == 0,
        thread@.queued_shutdowns.len() == 0,
        thread@.queued_writes.len() == 0,
        thread@.queued_response_body_drains.len() == 0,
        thread@.queued_proxy_derefs.len() == 0,
        thread@.ssl_contexts.len() == 0,
        forall|id: u32| !thread@.sockets.contains_key(id),
        !thread@.has_pending_queued_abort,
        !thread@.has_awoken,
        thread@.lazy_https_init is None,
        thread@.libdeflater is None,
        thread@.request_body_buffer is None,
{
}

/// The default TLS context is set up at once exactly if certificates were named, by a
/// file or by themselves; else that waits. The loop can be woken once all is ready.
pub proof fn certificates_are_read_first(
    thread: &mut HttpThread,
    loop_: u64,
    uws_loop: u64,
    opts: InitOpts,
    init_https: Option<InitOpts>,
)
    ensures
        call_ensures(HttpThread::on_start, (thread, loop_, uws_loop, opts), init_https) ==> {
            &&& init_https is Some <==> opts.abs_ca_file_name@.len() > 0 || opts.ca@.len() > 0
            &&& init_https is Some ==> init_https == Some(opts)
                && final(thread)@.lazy_https_init == old(thread)@.lazy_https_init
            &&& init_https is None ==> final(thread)@.lazy_https_init == Some(opts)
            &&& final(thread)@ == (ThreadView {
                loop_,
                uws_loop,
                lazy_https_init: final(thread)@.lazy_https_init,
                ..old(thread)@
            })
        },
        call_ensures(HttpThread::awaken, (thread,), ()) ==> final(thread)@ == (ThreadView {
            has_awoken: true,
            ..old(thread)@
        }),
{
}

/// Certificates are named by a file or by themselves; by default none are.
pub proof fn certificates_are_noticed(opts: &InitOpts, r: bool, default: InitOpts, copy: InitOpts)
    ensures
        call_ensures(InitOpts::has_certificates, (opts,), r) ==> (r
            <==> opts.abs_ca_file_name@.len()
            > 0 || opts.ca@.len() > 0),
        call_ensures(<InitOpts as Default>::default, (), default) ==> default.ca@.len() == 0
            && default.abs_ca_file_name@.len() == 0 && !default.for_install
            && default.on_init_error is None,
        call_ensures(<InitOpts as Clone>::clone, (opts,), copy) ==> copy.ca@ == opts.ca@
            && copy.abs_ca_file_name@ == opts.abs_ca_file_name@ && copy.for_install
            == opts.for_install && copy.on_init_error == opts.on_init_error,
{
}

/// A file that is not there was not found; one that is there was not loaded.
pub proof fn init_errors_say_what_was_wrong(err: InitError, exists: bool, r: InitErrorMessage)
    requires
        call_ensures(init_error_message, (err, exists), r),
    ensures
        r is FailedToFindCAFile <==> err is LoadCAFile && !exists,
        r is FailedToLoadCAFile <==> err is LoadCAFile && exists,
        r is InvalidCAFile <==> err is InvalidCAFile,
        r is InvalidCA <==> err is InvalidCA,
        r is FailedToStartThread <==> err is FailedToOpenSocket,
{
}

/// The file is named exactly where the trouble is with it, and the thread speaks of all
/// but its own failure to start.
pub proof fn init_errors_name_the_file(
    message: InitErrorMessage,
    r: (&'static str, &'static str, bool),
)
    requires
        call_ensures(InitErrorMessage::text, (message,), r),
    ensures
        r.2 <==> message is FailedToFindCAFile || message is FailedToLoadCAFile || message
            is InvalidCAFile,
        message is FailedToStartThread ==> r.0@ == "error"@ && r.1@
            == "failed to start HTTP client thread"@,
        !(message is FailedToStartThread) ==> r.0@ == "HTTPThread"@,
        message is FailedToFindCAFile ==> r.1@ == "failed to find CA file"@,
        message is FailedToLoadCAFile ==> r.1@ == "failed to load CA file"@,
        message is InvalidCAFile ==> r.1@ == "the CA file is invalid"@,
        message is InvalidCA ==> r.1@ == "the provided CA is invalid"@,
{
}

/// An idle timeout is what was asked for, five minutes if nothing was, up to four
/// minutes to the second and beyond in full minutes, never cut short by a minute's
/// fraction, and never above 239 minutes.
pub proof fn idle_timeouts_are_what_was_asked_for(configured: Option<u64>, r: u32)
    requires
        call_ensures(idle_timeout_seconds, (configured,), r),
    ensures
        r <= 239 * 60,
        configured is None ==> r == 300,
        configured matches Some(s) ==> {
            &&& s <= 240 ==> r == s
            &&& 240 < s <= 239 * 60 ==> r % 60 == 0 && s <= r && r - s < 60
            &&& s > 239 * 60 ==> r == 239 * 60
        },
{
}

/// Bodies of 32 KiB and more are sent from a large buffer, the one that is kept if there
/// is one, which is then no longer kept; smaller ones from a small buffer of zeros.
pub proof fn large_bodies_get_large_buffers(
    thread: &mut HttpThread,
    estimated_size: usize,
    r: RequestBodyBuffer,
)
    requires
        call_ensures(HttpThread::get_request_body_send_buffer, (thread, estimated_size), r),
    ensures
        r is Stack <==> estimated_size < 32768,
        r is Stack ==> final(thread)@ == old(thread)@,
        r matches RequestBodyBuffer::Stack(buffer) ==> forall|i: int|
            0 <= i < 32768 ==> #[trigger] buffer@[i] == 0,
        r matches RequestBodyBuffer::Heap(buffer) ==> {
            &&& buffer is Some
            &&& old(thread)@.request_body_buffer is Some
                ==> buffer == old(thread)@.request_body_buffer
            &&& old(thread)@.request_body_buffer is None ==> buffer->0.cursor == 0 && forall|i: int|
                0 <= i < 524288 ==> #[trigger] buffer->0.buffer@[i] == 0
            &&& final(thread)@ == (ThreadView { request_body_buffer: None, ..old(thread)@ })
        },
{
    if let RequestBodyBuffer::Stack(buffer) = r {
        assert forall|i: int| 0 <= i < 32768 implies #[trigger] buffer@[i] == 0 by {
            assert(r.bytes()[i] == 0);
        }
    }
}

/// A large buffer that is given back is kept, at its start, if none is; a small one, or
/// one too many, is not.
pub proof fn one_large_buffer_is_given_back(thread: &mut HttpThread, buffer: RequestBodyBuffer)
    requires
        call_ensures(HttpThread::release_request_body_buffer, (thread, buffer), ()),
    ensures
        old(thread)@.request_body_buffer is Some || buffer is Stack || buffer
            == RequestBodyBuffer::Heap(None) ==> final(thread)@ == old(thread)@,
        old(thread)@.request_body_buffer is None ==> (buffer matches RequestBodyBuffer::Heap(
            Some(used),
        ) ==> {
            &&& final(thread)@.request_body_buffer matches Some(kept)
            &&& kept.buffer == used.buffer
            &&& kept.cursor == 0
        }),
        final(thread)@ == (ThreadView {
            request_body_buffer: final(thread)@.request_body_buffer,
            ..old(thread)@
        }),
{
}

/// All of a buffer can be written to, and writing changes nothing else of it. A list made
/// for it is empty.
pub proof fn buffers_are_lent_whole(buffer: &mut RequestBodyBuffer, r: &mut [u8], list: Vec<u8>)
    ensures
        call_ensures(RequestBodyBuffer::allocated_slice, (buffer,), r) ==> {
            &&& *old(buffer) matches RequestBodyBuffer::Heap(Some(heap)) ==> {
                &&& old(r)@.len() == 524288
                &&& old(r)@ == heap.buffer@
                &&& *final(buffer) matches RequestBodyBuffer::Heap(Some(after))
                &&& after.buffer@ == final(r)@
                &&& after.cursor == heap.cursor
            }
            &&& *old(buffer) matches RequestBodyBuffer::Stack(stack) ==> {
                &&& old(r)@.len() == 32768
                &&& old(r)@ == stack@
                &&& *final(buffer) matches RequestBodyBuffer::Stack(after)
                &&& after@ == final(r)@
            }
        },
        call_ensures(RequestBodyBuffer::to_array_list, (buffer,), list) ==> list@.len() == 0
            && *final(buffer) == *old(buffer),
{
}

/// A new large buffer holds zeros and stands at its start.
pub proof fn new_buffers_hold_zeros(buffer: Box<HeapRequestBodyBuffer>)
    requires
        call_ensures(HeapRequestBodyBuffer::init, (), buffer),
    ensures
        buffer.cursor == 0,
        forall|i: int| 0 <= i < 524288 ==> #[trigger] buffer.buffer@[i] == 0,
{
}

/// A large buffer that is put away is kept, at its start, if none is.
pub proof fn one_large_buffer_is_put_away(
    used: Box<HeapRequestBodyBuffer>,
    buffer: RequestBodyBuffer,
    kept: &mut Option<Box<HeapRequestBodyBuffer>>,
)
    requires
        call_ensures(HeapRequestBodyBuffer::put, (used, kept), ()) || buffer
            == RequestBodyBuffer::Heap(Some(used)) && call_ensures(
            RequestBodyBuffer::release,
            (buffer, kept),
            (),
        ),
    ensures
        *old(kept) matches Some(first) ==> *final(kept) == Some(first),
        *old(kept) is None ==> {
            &&& *final(kept) matches Some(now)
            &&& now.buffer == used.buffer
            &&& now.cursor == 0
        },
{
}

/// The decompressor that was handed over first is kept from then on, with what it has
/// decompressed to; at first that is zeros.
pub proof fn decompressors_are_kept(
    thread: &mut HttpThread,
    decompressor: Option<u64>,
    r: &mut LibdeflateState,
)
    requires
        call_ensures(HttpThread::deflater, (thread, decompressor), r),
    ensures
        old(thread)@.libdeflater matches Some(state) ==> *old(r) == state,
        old(thread)@.libdeflater is None ==> {
            &&& Some(old(r).decompressor) == decompressor
            &&& forall|i: int| 0 <= i < 524288 ==> #[trigger] old(r).shared_buffer@[i] == 0
        },
        final(thread)@ == (ThreadView { libdeflater: Some(*final(r)), ..old(thread)@ }),
{
}

/// At first no request has a socket.
pub proof fn new_trackers_are_empty(tracker: AbortTracker)
    requires
        call_ensures(AbortTracker::new, (), tracker),
    ensures
        forall|id: u32| !tracker@.contains_key(id),
{
}

/// What is said of the thread is what its fields hold.
pub proof fn threads_are_their_fields(thread: HttpThread)
    ensures
        thread@.loop_ == thread.loop_,
        thread@.uws_loop == thread.uws_loop,
        thread@.http_context == thread.http_context,
        thread@.https_context == thread.https_context,
        thread@.lazy_https_init == thread.lazy_https_init,
        thread@.queued_tasks == thread.queued_tasks@,
        thread@.deferred_tasks == thread.deferred_tasks@,
        thread@.has_pending_queued_abort == thread.has_pending_queued_abort,
        thread@.queued_shutdowns == thread.queued_shutdowns@,
        thread@.queued_writes == thread.queued_writes@,
        thread@.queued_response_body_drains == thread.queued_response_body_drains@,
        thread@.queued_proxy_derefs == thread.queued_threadlocal_proxy_derefs@,
        thread@.has_awoken == thread.has_awoken,
        thread.lazy_libdeflater is None <==> thread@.libdeflater is None,
        thread.lazy_libdeflater matches Some(state) ==> thread@.libdeflater == Some(*state),
        thread@.request_body_buffer == thread.lazy_request_body_buffer,
        thread@.ssl_contexts == thread.ssl_contexts@,
        thread@.sockets == thread.abort_tracker@,
{
}

} // verus!
