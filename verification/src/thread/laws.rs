//! What holds across the functions of the network thread.

use vstd::prelude::*;

use crate::tunnel::heap::{retained, TunnelId};
use crate::tunnel::proxy_tunnel::TunnelView;

use super::array_map::{lemma_swap_removed, swap_removed};
use super::drain::{owed, repaid};
use super::ssl_cache::{
    distinct_configs, has_config, inserted, is_oldest, lemma_swept, stored, swept,
    SslContextCacheEntry, SSL_CONTEXT_CACHE_MAX_SIZE, SSL_CONTEXT_CACHE_TTL_NS,
};

verus! {

/// However many contexts are made, no more than the limit are kept.
pub proof fn cache_stays_bounded(
    before: Seq<SslContextCacheEntry>,
    entry: SslContextCacheEntry,
    released: Option<SslContextCacheEntry>,
    after: Seq<SslContextCacheEntry>,
)
    requires
        before.len() <= SSL_CONTEXT_CACHE_MAX_SIZE,
        inserted(before, entry, released, after),
    ensures
        after.len() <= SSL_CONTEXT_CACHE_MAX_SIZE,
{
    let all = stored(before, entry);
    if released is Some {
        let i = choose|i: int| #[trigger]
            is_oldest(all, i) && released == Some(all[i]) && after == swap_removed(all, i);
        lemma_swap_removed(all, i);
    }
}

/// As long as the clock does not go back, a context that was just made is kept, and the
/// one that leaves for it, if any, is one of those that were used the longest ago.
pub proof fn new_contexts_are_kept(
    before: Seq<SslContextCacheEntry>,
    entry: SslContextCacheEntry,
    released: Option<SslContextCacheEntry>,
    after: Seq<SslContextCacheEntry>,
)
    requires
        before.len() <= SSL_CONTEXT_CACHE_MAX_SIZE,
        forall|i: int|
            0 <= i < before.len() ==> (#[trigger] before[i]).last_used_ns <= entry.last_used_ns,
        inserted(before, entry, released, after),
    ensures
        after.contains(entry),
        released matches Some(gone) ==> before.contains(gone) && forall|i: int|
            0 <= i < before.len() ==> gone.last_used_ns <= (#[trigger] before[i]).last_used_ns,
{
    let all = stored(before, entry);
    if has_config(before, entry.config) {
        let i = choose|i: int|
            0 <= i < before.len() && (#[trigger] before[i]).config == entry.config;
        assert(all[i] == entry);
        assert(all.len() == before.len());
    } else {
        assert(all[before.len() as int] == entry);
        if released is Some {
            let i = choose|i: int| #[trigger]
                is_oldest(all, i) && released == Some(all[i]) && after == swap_removed(all, i);
            if i == before.len() {
                assert(all[0] == before[0]);
                assert(all[i].last_used_ns < all[0].last_used_ns);
            }
            assert(all[i] == before[i]);
            assert(after[i] == entry || after[before.len() - 1] == entry);
            assert forall|j: int| 0 <= j < before.len() implies all[i].last_used_ns <= (#[trigger]
            before[j]).last_used_ns by {
                assert(all[j] == before[j]);
            }
        }
    }
}

/// An entry is kept exactly if it was kept before and is not stale.
pub(super) proof fn lemma_evicted(
    before: Seq<SslContextCacheEntry>,
    now: u64,
    released: Seq<SslContextCacheEntry>,
    kept: Seq<SslContextCacheEntry>,
    entry: SslContextCacheEntry,
)
    requires
        swept(before, 0, now) == (kept, released),
    ensures
        kept.contains(entry) <==> before.contains(entry) && !entry.is_stale(now),
{
    broadcast use vstd::seq_lib::group_to_multiset_ensures;

    lemma_swept(before, 0, now);
    let sum = kept.to_multiset().add(released.to_multiset());
    assert(sum.count(entry) == kept.to_multiset().count(entry) + released.to_multiset().count(
        entry,
    ));
    if kept.contains(entry) {
        assert(kept.to_multiset().count(entry) > 0);
        let i = kept.index_of(entry);
        assert(!kept[i].is_stale(now));
    }
    if before.contains(entry) && !entry.is_stale(now) {
        assert(before.to_multiset().count(entry) > 0);
        if released.contains(entry) {
            let i = released.index_of(entry);
            assert(released[i].is_stale(now));
        }
    }
}

/// A request gets a context that is kept for its configuration exactly if one was kept
/// and is not stale: a stale context is never used, and a fresh one is not made anew.
pub proof fn fresh_contexts_are_reused(
    before: Seq<SslContextCacheEntry>,
    now: u64,
    released: Seq<SslContextCacheEntry>,
    kept: Seq<SslContextCacheEntry>,
    config: u64,
)
    requires
        swept(before, 0, now) == (kept, released),
    ensures
        has_config(kept, config) <==> exists|i: int|
            0 <= i < before.len() && (#[trigger] before[i]).config == config && !before[i].is_stale(
                now,
            ),
{
    if has_config(kept, config) {
        let i = choose|i: int| 0 <= i < kept.len() && (#[trigger] kept[i]).config == config;
        lemma_evicted(before, now, released, kept, kept[i]);
        assert(kept.contains(kept[i]));
        let j = before.index_of(kept[i]);
        assert(before[j].config == config && !before[j].is_stale(now));
    }
    if exists|i: int|
        0 <= i < before.len() && (#[trigger] before[i]).config == config && !before[i].is_stale(
            now,
        ) {
        let i = choose|i: int|
            0 <= i < before.len() && (#[trigger] before[i]).config == config
                && !before[i].is_stale(now);
        lemma_evicted(before, now, released, kept, before[i]);
        assert(before.contains(before[i]));
        let j = kept.index_of(before[i]);
        assert(kept[j].config == config);
    }
}

/// A context that was made for a configuration is the one that the next request with
/// that configuration gets, if that comes before it is stale.
pub proof fn created_contexts_are_reused(
    before: Seq<SslContextCacheEntry>,
    entry: SslContextCacheEntry,
    released: Option<SslContextCacheEntry>,
    after: Seq<SslContextCacheEntry>,
    now: u64,
    evicted_later: Seq<SslContextCacheEntry>,
    kept: Seq<SslContextCacheEntry>,
)
    requires
        before.len() <= SSL_CONTEXT_CACHE_MAX_SIZE,
        forall|i: int|
            0 <= i < before.len() ==> (#[trigger] before[i]).last_used_ns <= entry.last_used_ns,
        inserted(before, entry, released, after),
        swept(after, 0, now) == (kept, evicted_later),
        distinct_configs(kept),
        now - entry.last_used_ns <= SSL_CONTEXT_CACHE_TTL_NS,
    ensures
        has_config(kept, entry.config),
        forall|i: int|
            0 <= i < kept.len() && (#[trigger] kept[i]).config == entry.config ==> kept[i].ctx
                == entry.ctx,
{
    new_contexts_are_kept(before, entry, released, after);
    lemma_evicted(after, now, evicted_later, kept, entry);
    let at = kept.index_of(entry);
    assert(kept[at].config == entry.config);
    assert forall|i: int|
        0 <= i < kept.len() && (#[trigger] kept[i]).config == entry.config implies kept[i].ctx
        == entry.ctx by {
        if i < at {
            assert(kept[i].config != kept[at].config);
        } else if at < i {
            assert(kept[at].config != kept[i].config);
        }
    }
}

/// To take a reference to a tunnel and to queue its return changes nothing once the
/// queue has been drained.
pub proof fn queued_derefs_are_balanced(tunnels: Map<TunnelId, TunnelView>, id: TunnelId)
    requires
        tunnels.contains_key(id),
        0 < tunnels[id].ref_count < u32::MAX,
    ensures
        repaid(retained(tunnels, id), seq![id]) == tunnels,
{
    assert(seq![id].drop_last() =~= Seq::empty());
    assert forall|other: TunnelId| #[trigger]
        owed(seq![id], other) == if other == id {
            1nat
        } else {
            0nat
        } by {
        reveal_with_fuel(owed, 2);
    }
    assert(repaid(retained(tunnels, id), seq![id]) =~= tunnels);
}

} // verus!
