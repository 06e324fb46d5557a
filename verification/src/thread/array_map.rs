use vstd::prelude::*;

verus! {

/// A map from numbers to pairs of numbers that can also be read by position: a
/// `bun_collections::ArrayHashMap`.
#[verifier::external_body]
pub struct ArrayMap {
    map: bun_collections::ArrayHashMap<u64, (u64, u64)>,
}

/// The keys and values of the map, by position.
pub uninterp spec fn entries(map: ArrayMap) -> Seq<(u64, (u64, u64))>;

/// No key stands at two positions.
pub open spec fn distinct_keys(entries: Seq<(u64, (u64, u64))>) -> bool {
    forall|i: int, j: int|
        0 <= i < j < entries.len() ==> (#[trigger] entries[i]).0 != (#[trigger] entries[j]).0
}

/// The key stands at some position.
pub open spec fn has_key(entries: Seq<(u64, (u64, u64))>, key: u64) -> bool {
    exists|i: int| 0 <= i < entries.len() && (#[trigger] entries[i]).0 == key
}

/// The entries once that at `i` has left and the last one has taken its place.
pub open spec fn swap_removed<A>(entries: Seq<A>, i: int) -> Seq<A> {
    if i == entries.len() - 1 {
        entries.drop_last()
    } else {
        entries.update(i, entries.last()).drop_last()
    }
}

impl ArrayMap {
    /// Calls `ArrayHashMap::new`: the map is empty.
    #[verifier::external_body]
    pub(crate) fn new() -> (r: ArrayMap)
        ensures
            entries(r) == Seq::<(u64, (u64, u64))>::empty(),
    {
        ArrayMap { map: bun_collections::ArrayHashMap::new() }
    }

    /// Calls `ArrayHashMap::count`: how many entries there are.
    #[verifier::external_body]
    pub(crate) fn count(&self) -> (r: usize)
        ensures
            r == entries(*self).len(),
    {
        self.map.count()
    }

    /// Calls `ArrayHashMap::keys`: the key at a position.
    #[verifier::external_body]
    pub(crate) fn key_at(&self, i: usize) -> (r: u64)
        requires
            i < entries(*self).len(),
        ensures
            r == entries(*self)[i as int].0,
    {
        self.map.keys()[i]
    }

    /// Calls `ArrayHashMap::values`: the value at a position.
    #[verifier::external_body]
    pub(crate) fn value_at(&self, i: usize) -> (r: (u64, u64))
        requires
            i < entries(*self).len(),
        ensures
            r == entries(*self)[i as int].1,
    {
        self.map.values()[i]
    }

    /// Calls `ArrayHashMap::put`: a key that is there keeps its position and gets the
    /// new value; a key that is not goes to the end. The call always comes off.
    #[verifier::external_body]
    pub(crate) fn put(&mut self, key: u64, value: (u64, u64))
        requires
            distinct_keys(entries(*old(self))),
        ensures
            !has_key(entries(*old(self)), key) ==> entries(*final(self)) == entries(
                *old(self),
            ).push((key, value)),
            forall|i: int|
                0 <= i < entries(*old(self)).len() && (#[trigger] entries(*old(self))[i]).0 == key
                    ==> entries(*final(self)) == entries(*old(self)).update(i, (key, value)),
    {
        let _ = self.map.put(key, value);
    }

    /// Calls `ArrayHashMap::swap_remove_at`: the entry at a position leaves, and the
    /// last entry takes its place.
    #[verifier::external_body]
    pub(crate) fn swap_remove_at(&mut self, i: usize) -> (r: (u64, (u64, u64)))
        requires
            i < entries(*old(self)).len(),
        ensures
            r == entries(*old(self))[i as int],
            entries(*final(self)) == swap_removed(entries(*old(self)), i as int),
    {
        self.map.swap_remove_at(i)
    }

    /// Calls `ArrayHashMap::get_index`: where a key stands, if it is there.
    #[verifier::external_body]
    pub(crate) fn get_index(&self, key: u64) -> (r: Option<usize>)
        ensures
            r is Some <==> has_key(entries(*self), key),
            r matches Some(i) ==> i < entries(*self).len() && entries(*self)[i as int].0 == key,
    {
        self.map.get_index(&key)
    }
}

/// An entry that leaves takes nothing else with it: those that stay are the others.
pub proof fn lemma_swap_removed<A>(entries: Seq<A>, i: int)
    requires
        0 <= i < entries.len(),
    ensures
        swap_removed(entries, i).len() == entries.len() - 1,
        swap_removed(entries, i).to_multiset() == entries.to_multiset().remove(entries[i]),
{
    broadcast use vstd::seq_lib::group_to_multiset_ensures;

    let last = entries.len() - 1;
    assert(entries =~= entries.drop_last().push(entries.last()));
    if i < last {
        let rest = entries.drop_last();
        assert(swap_removed(entries, i) =~= rest.update(i, entries.last()));
        assert(rest.update(i, entries.last()).to_multiset() =~= rest.to_multiset().insert(
            entries.last(),
        ).remove(entries[i]));
        assert(entries.to_multiset() =~= rest.to_multiset().insert(entries.last()));
    } else {
        assert(entries.to_multiset() =~= entries.drop_last().to_multiset().insert(
            entries.last(),
        ));
        assert(entries.drop_last().to_multiset() =~= entries.to_multiset().remove(entries[i]));
    }
}

/// Keys stay distinct when an entry leaves.
pub proof fn lemma_swap_removed_distinct(entries: Seq<(u64, (u64, u64))>, i: int)
    requires
        0 <= i < entries.len(),
        distinct_keys(entries),
    ensures
        distinct_keys(swap_removed(entries, i)),
        !has_key(swap_removed(entries, i), entries[i].0),
        forall|key: u64|
            key != entries[i].0 ==> (has_key(swap_removed(entries, i), key) <==> #[trigger]
            has_key(entries, key)),
{
    let after = swap_removed(entries, i);
    let last = entries.len() - 1;
    assert forall|a: int, b: int| 0 <= a < b < after.len() implies (#[trigger] after[a]).0 != (
    #[trigger] after[b]).0 by {
        let oa = if a == i { last } else { a };
        let ob = if b == i { last } else { b };
        assert(after[a] == entries[oa] && after[b] == entries[ob]);
        if oa < ob {
            assert(entries[oa].0 != entries[ob].0);
        } else {
            assert(entries[ob].0 != entries[oa].0);
        }
    }
    assert(!has_key(after, entries[i].0)) by {
        if has_key(after, entries[i].0) {
            let a = choose|a: int| 0 <= a < after.len() && (#[trigger] after[a]).0 == entries[i].0;
            let oa = if a == i { last } else { a };
            assert(after[a] == entries[oa]);
            if oa < i {
                assert(entries[oa].0 != entries[i].0);
            } else if oa > i {
                assert(entries[i].0 != entries[oa].0);
            }
        }
    }
    assert forall|key: u64| key != entries[i].0 implies (has_key(after, key) <==> #[trigger]
    has_key(entries, key)) by {
        if has_key(entries, key) {
            let a = choose|a: int| 0 <= a < entries.len() && (#[trigger] entries[a]).0 == key;
            if a == last {
                assert(after[i].0 == key);
            } else {
                assert(after[a].0 == key);
            }
        }
        if has_key(after, key) {
            let a = choose|a: int| 0 <= a < after.len() && (#[trigger] after[a]).0 == key;
            let oa = if a == i { last } else { a };
            assert(entries[oa].0 == key);
        }
    }
}

} // verus!
