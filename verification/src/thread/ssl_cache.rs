//! TLS contexts that were made for one configuration are kept for the next request
//! with the same configuration.

use vstd::multiset::Multiset;
use vstd::prelude::*;

use super::array_map::{
    distinct_keys, entries, has_key, lemma_swap_removed, lemma_swap_removed_distinct, swap_removed,
    ArrayMap,
};

verus! {

/// How many contexts are kept.
pub const SSL_CONTEXT_CACHE_MAX_SIZE: usize = 60;

/// How long a context is kept that nobody uses, in nanoseconds: half an hour.
pub const SSL_CONTEXT_CACHE_TTL_NS: u64 = 1_800_000_000_000;

/// A kept context.
#[derive(Copy, Clone, Debug, PartialEq, Eq, Structural)]
pub struct SslContextCacheEntry {
    /// The configuration that it was made for, which stays alive with it.
    pub config: u64,
    /// The context, by its handle.
    pub ctx: u64,
    /// When it was last used.
    pub last_used_ns: u64,
}

/// The kept contexts.
pub struct SslContextCache {
    map: ArrayMap,
}

impl SslContextCacheEntry {
    pub open spec fn of(entry: (u64, (u64, u64))) -> SslContextCacheEntry {
        SslContextCacheEntry { config: entry.0, ctx: entry.1.0, last_used_ns: entry.1.1 }
    }

    fn from_entry(entry: (u64, (u64, u64))) -> (r: SslContextCacheEntry)
        ensures
            r == SslContextCacheEntry::of(entry),
    {
        let (config, (ctx, last_used_ns)) = entry;
        SslContextCacheEntry { config, ctx, last_used_ns }
    }

    /// Nobody has used the context for too long.
    pub open spec fn is_stale(self, now: u64) -> bool {
        now - self.last_used_ns > SSL_CONTEXT_CACHE_TTL_NS
    }
}

impl View for SslContextCache {
    type V = Seq<SslContextCacheEntry>;

    /// The kept contexts, by position.
    closed spec fn view(&self) -> Seq<SslContextCacheEntry> {
        entries(self.map).map_values(|e: (u64, (u64, u64))| SslContextCacheEntry::of(e))
    }
}

/// No configuration has two contexts.
pub open spec fn distinct_configs(kept: Seq<SslContextCacheEntry>) -> bool {
    forall|i: int, j: int|
        0 <= i < j < kept.len() ==> (#[trigger] kept[i]).config != (#[trigger] kept[j]).config
}

/// A context is kept for the configuration.
pub open spec fn has_config(kept: Seq<SslContextCacheEntry>, config: u64) -> bool {
    exists|i: int| 0 <= i < kept.len() && (#[trigger] kept[i]).config == config
}

/// The context at `i` was used the longest ago, and of several such is the first.
pub open spec fn is_oldest(kept: Seq<SslContextCacheEntry>, i: int) -> bool {
    &&& 0 <= i < kept.len()
    &&& forall|j: int|
        0 <= j < kept.len() ==> kept[i].last_used_ns <= (#[trigger] kept[j]).last_used_ns
    &&& forall|j: int| 0 <= j < i ==> kept[i].last_used_ns < (#[trigger] kept[j]).last_used_ns
}

impl SslContextCache {
    pub open spec fn wf(&self) -> bool {
        distinct_configs(self@)
    }

    /// What the view says of the map beneath.
    proof fn lemma_view(&self)
        ensures
            self@.len() == entries(self.map).len(),
            forall|i: int|
                0 <= i < self@.len() ==> #[trigger] self@[i] == SslContextCacheEntry::of(
                    entries(self.map)[i],
                ),
            distinct_configs(self@) <==> distinct_keys(entries(self.map)),
            forall|config: u64| #[trigger]
                has_config(self@, config) <==> has_key(entries(self.map), config),
    {
        let under = entries(self.map);
        if distinct_configs(self@) {
            assert forall|i: int, j: int| 0 <= i < j < under.len() implies (#[trigger] under[i]).0
                != (#[trigger] under[j]).0 by {
                assert(self@[i].config != self@[j].config);
            }
        }
        assert forall|config: u64| #[trigger]
            has_config(self@, config) <==> has_key(under, config) by {
            if has_config(self@, config) {
                let i = choose|i: int| 0 <= i < self@.len() && (#[trigger] self@[i]).config == config;
                assert(under[i].0 == config);
            }
            if has_key(under, config) {
                let i = choose|i: int| 0 <= i < under.len() && (#[trigger] under[i]).0 == config;
                assert(self@[i].config == config);
            }
        }
    }

    pub fn new() -> (r: SslContextCache)
        ensures
            r.wf(),
            r@ == Seq::<SslContextCacheEntry>::empty(),
    {
        let r = SslContextCache { map: ArrayMap::new() };
        assert(r@ =~= Seq::empty());
        r
    }

    /// How many contexts are kept.
    pub fn count(&self) -> (r: usize)
        ensures
            r == self@.len(),
    {
        proof {
            self.lemma_view();
        }
        self.map.count()
    }

    /// The context at a position.
    pub fn get(&self, i: usize) -> (r: SslContextCacheEntry)
        requires
            i < self@.len(),
        ensures
            r == self@[i as int],
    {
        proof {
            self.lemma_view();
        }
        SslContextCacheEntry::from_entry((self.map.key_at(i), self.map.value_at(i)))
    }

    /// Takes the context at a position out; the last one takes its place.
    fn swap_remove_at(&mut self, i: usize) -> (r: SslContextCacheEntry)
        requires
            old(self).wf(),
            i < old(self)@.len(),
        ensures
            final(self).wf(),
            r == old(self)@[i as int],
            final(self)@ == swap_removed(old(self)@, i as int),
            final(self)@.len() == old(self)@.len() - 1,
    {
        proof {
            self.lemma_view();
            lemma_swap_removed_distinct(entries(self.map), i as int);
        }
        let r = self.map.swap_remove_at(i);
        proof {
            self.lemma_view();
            assert(self@ =~= swap_removed(old(self)@, i as int));
        }
        SslContextCacheEntry::from_entry(r)
    }

    /// Lets go of the contexts that nobody has used for too long; those returned are
    /// to be released, in that order.
    pub fn evict_stale_ssl_contexts(&mut self, now: u64) -> (released: Vec<SslContextCacheEntry>)
        requires
            old(self).wf(),
        ensures
            final(self).wf(),
            swept(old(self)@, 0, now) == (final(self)@, released@),
    {
        let mut released: Vec<SslContextCacheEntry> = Vec::new();
        let mut i: usize = 0;
        assert(released@ + swept(self@, 0, now).1 =~= swept(self@, 0, now).1);
        while i < self.count()
            invariant
                self.wf(),
                i <= self@.len(),
                swept(old(self)@, 0, now) == (
                    swept(self@, i as int, now).0,
                    released@ + swept(self@, i as int, now).1,
                ),
            decreases self@.len() - i,
        {
            let last_used = self.get(i).last_used_ns;
            if now.saturating_sub(last_used) > SSL_CONTEXT_CACHE_TTL_NS {
                let ghost before = released@;
                let ghost later = swept(swap_removed(self@, i as int), i as int, now).1;
                let entry = self.swap_remove_at(i);
                released.push(entry);
                assert(released@ + later =~= before + (seq![entry] + later));
            } else {
                i = i + 1;
            }
        }
        assert(released@ + Seq::<SslContextCacheEntry>::empty() =~= released@);
        released
    }

    /// Lets go of the context that was used the longest ago, if there is any; it is
    /// to be released.
    pub fn evict_oldest_ssl_context(&mut self) -> (released: Option<SslContextCacheEntry>)
        requires
            old(self).wf(),
        ensures
            final(self).wf(),
            released is None <==> old(self)@.len() == 0,
            released is None ==> final(self)@ == old(self)@,
            released matches Some(entry) ==> exists|i: int| #[trigger]
                is_oldest(old(self)@, i) && entry == old(self)@[i] && final(self)@ == swap_removed(
                    old(self)@,
                    i,
                ),
    {
        let n = self.count();
        if n == 0 {
            return None;
        }
        let mut oldest: usize = 0;
        let mut oldest_time: u64 = u64::MAX;
        let mut i: usize = 0;
        while i < n
            invariant
                i <= n,
                n == self@.len(),
                n > 0,
                oldest < n,
                oldest_time == u64::MAX ==> oldest == 0,
                oldest_time != u64::MAX ==> oldest < i && oldest_time
                    == self@[oldest as int].last_used_ns,
                forall|j: int|
                    0 <= j < i ==> oldest_time <= (#[trigger] self@[j]).last_used_ns,
                forall|j: int|
                    0 <= j < oldest ==> oldest_time < (#[trigger] self@[j]).last_used_ns,
            decreases n - i,
        {
            let last_used = self.get(i).last_used_ns;
            if last_used < oldest_time {
                oldest_time = last_used;
                oldest = i;
            }
            i = i + 1;
        }
        proof {
            assert(oldest_time == u64::MAX ==> self@[0].last_used_ns == u64::MAX);
            assert(is_oldest(self@, oldest as int));
        }
        Some(self.swap_remove_at(oldest))
    }

    /// The context that is kept for a configuration, which counts as a use of it.
    pub fn touch(&mut self, config: u64, now: u64) -> (ctx: Option<u64>)
        requires
            old(self).wf(),
        ensures
            final(self).wf(),
            final(self)@ == touched(old(self)@, config, now),
            ctx is Some <==> has_config(old(self)@, config),
            forall|i: int|
                0 <= i < old(self)@.len() && (#[trigger] old(self)@[i]).config == config ==> ctx
                    == Some(old(self)@[i].ctx),
    {
        proof {
            self.lemma_view();
        }
        match self.map.get_index(config) {
            None => {
                assert(!has_config(self@, config));
                assert(self@ =~= touched(self@, config, now));
                None
            },
            Some(i) => {
                let (ctx, _) = self.map.value_at(i);
                let ghost before = self@;
                let ghost under = entries(self.map);
                self.map.put(config, (ctx, now));
                proof {
                    assert(under[i as int].0 == config);
                    assert(before[i as int].config == config);
                    assert(entries(self.map) == under.update(i as int, (config, (ctx, now))));
                    assert forall|j: int| 0 <= j < before.len() && j != i implies (#[trigger]
                    before[j]).config != config by {
                        if j < i {
                            assert(before[j].config != before[i as int].config);
                        } else {
                            assert(before[i as int].config != before[j].config);
                        }
                    }
                    assert(self@ =~= touched(before, config, now));
                }
                Some(ctx)
            },
        }
    }

    /// Keeps a context for a configuration; if that makes too many, the one that was
    /// used the longest ago leaves and is to be released.
    pub fn insert(&mut self, config: u64, ctx: u64, now: u64) -> (released: Option<
        SslContextCacheEntry,
    >)
        requires
            old(self).wf(),
        ensures
            final(self).wf(),
            inserted(
                old(self)@,
                SslContextCacheEntry { config, ctx, last_used_ns: now },
                released,
                final(self)@,
            ),
    {
        let ghost before = self@;
        let ghost under = entries(self.map);
        let ghost entry = SslContextCacheEntry { config, ctx, last_used_ns: now };
        proof {
            self.lemma_view();
        }
        self.map.put(config, (ctx, now));
        proof {
            if has_config(before, config) {
                let i = choose|i: int|
                    0 <= i < before.len() && (#[trigger] before[i]).config == config;
                assert(under[i].0 == config);
                assert(entries(self.map) == under.update(i, (config, (ctx, now))));
                assert forall|j: int| 0 <= j < before.len() && j != i implies (#[trigger]
                before[j]).config != config by {
                    if j < i {
                        assert(before[j].config != before[i].config);
                    } else {
                        assert(before[i].config != before[j].config);
                    }
                }
            }
            assert(self@ =~= stored(before, entry));
            assert forall|i: int, j: int| 0 <= i < j < self@.len() implies (#[trigger]
            self@[i]).config != (#[trigger] self@[j]).config by {
                assert(before[i].config == self@[i].config);
                if j < before.len() {
                    assert(before[j].config == self@[j].config);
                }
            }
        }
        if self.count() > SSL_CONTEXT_CACHE_MAX_SIZE {
            self.evict_oldest_ssl_context()
        } else {
            None
        }
    }
}

/// What is kept, and what is let go and in which order, when the contexts from
/// position `i` on are looked at in turn: a stale one leaves and the last one takes its
/// place, to be looked at next.
pub open spec fn swept(kept: Seq<SslContextCacheEntry>, i: int, now: u64) -> (
    Seq<SslContextCacheEntry>,
    Seq<SslContextCacheEntry>,
)
    decreases kept.len() - i,
{
    if i < 0 || i >= kept.len() {
        (kept, Seq::empty())
    } else if kept[i].is_stale(now) {
        let (after, released) = swept(swap_removed(kept, i), i, now);
        (after, seq![kept[i]] + released)
    } else {
        swept(kept, i + 1, now)
    }
}

/// Those that stay and those that are let go are all that there were, and exactly the
/// stale ones are let go.
pub proof fn lemma_swept(kept: Seq<SslContextCacheEntry>, i: int, now: u64)
    requires
        0 <= i <= kept.len(),
        forall|j: int| 0 <= j < i ==> !(#[trigger] kept[j]).is_stale(now),
    ensures
        ({
            let (after, released) = swept(kept, i, now);
            &&& after.to_multiset().add(released.to_multiset()) == kept.to_multiset()
            &&& forall|j: int| 0 <= j < released.len() ==> (#[trigger] released[j]).is_stale(now)
            &&& forall|j: int| 0 <= j < after.len() ==> !(#[trigger] after[j]).is_stale(now)
        }),
    decreases kept.len() - i,
{
    broadcast use vstd::seq_lib::group_to_multiset_ensures;

    let (after, released) = swept(kept, i, now);
    if i == kept.len() {
        assert(after.to_multiset().add(released.to_multiset()) =~= kept.to_multiset());
    } else if kept[i].is_stale(now) {
        let entry = kept[i];
        let rest = swap_removed(kept, i);
        let later = swept(rest, i, now).1;
        assert forall|j: int| 0 <= j < i implies !(#[trigger] rest[j]).is_stale(now) by {
            assert(rest[j] == kept[j]);
        }
        lemma_swept(rest, i, now);
        lemma_swap_removed(kept, i);
        vstd::seq_lib::lemma_multiset_commutative(seq![entry], later);
        let none = Seq::<SslContextCacheEntry>::empty();
        assert(none.to_multiset().len() == 0);
        assert(seq![entry] =~= none.push(entry));
        assert(seq![entry].to_multiset() =~= Multiset::singleton(entry));
        assert(released.to_multiset() == seq![entry].to_multiset().add(later.to_multiset()));
        assert(kept.contains(entry));
        assert(kept.to_multiset().count(entry) > 0);
        assert(kept.to_multiset() =~= rest.to_multiset().insert(entry));
        assert(after.to_multiset().add(later.to_multiset()) == rest.to_multiset());
        assert(after.to_multiset().add(released.to_multiset()) =~= kept.to_multiset());
        assert forall|j: int| 0 <= j < released.len() implies (#[trigger] released[j]).is_stale(
            now,
        ) by {
            if j > 0 {
                assert(released[j] == later[j - 1]);
            }
        }
    } else {
        lemma_swept(kept, i + 1, now);
    }
}

/// The context has been stored; where that made too many, the one that was used the
/// longest ago has left.
pub open spec fn inserted(
    before: Seq<SslContextCacheEntry>,
    entry: SslContextCacheEntry,
    released: Option<SslContextCacheEntry>,
    after: Seq<SslContextCacheEntry>,
) -> bool {
    let all = stored(before, entry);
    match released {
        None => all.len() <= SSL_CONTEXT_CACHE_MAX_SIZE && after == all,
        Some(gone) => all.len() > SSL_CONTEXT_CACHE_MAX_SIZE && exists|i: int| #[trigger]
            is_oldest(all, i) && gone == all[i] && after == swap_removed(all, i),
    }
}

/// The kept contexts once that for `config` has been used.
pub open spec fn touched(kept: Seq<SslContextCacheEntry>, config: u64, now: u64) -> Seq<
    SslContextCacheEntry,
> {
    kept.map_values(
        |e: SslContextCacheEntry|
            if e.config == config {
                SslContextCacheEntry { last_used_ns: now, ..e }
            } else {
                e
            },
    )
}

/// The kept contexts with `entry` in the place of the one for the same configuration,
/// or behind the others.
pub open spec fn stored(kept: Seq<SslContextCacheEntry>, entry: SslContextCacheEntry) -> Seq<
    SslContextCacheEntry,
> {
    if has_config(kept, entry.config) {
        kept.map_values(
            |e: SslContextCacheEntry|
                if e.config == entry.config {
                    entry
                } else {
                    e
                },
        )
    } else {
        kept.push(entry)
    }
}

} // verus!
