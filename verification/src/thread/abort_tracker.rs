//! The sockets that running requests use, to find them when a request is aborted.

use vstd::prelude::*;

use super::array_map::{distinct_keys, entries, has_key, lemma_swap_removed_distinct, ArrayMap};

verus! {

/// A socket, by its handle.
#[derive(Copy, Clone, Debug, PartialEq, Eq, Structural)]
pub enum AnySocket {
    SocketTls(u64),
    SocketTcp(u64),
}

/// The socket of each running request that has one.
pub struct AbortTracker {
    map: ArrayMap,
}

impl AnySocket {
    /// How a socket is stored.
    spec fn stored(self) -> (u64, u64) {
        match self {
            AnySocket::SocketTls(handle) => (1, handle),
            AnySocket::SocketTcp(handle) => (0, handle),
        }
    }

    spec fn restored(stored: (u64, u64)) -> AnySocket {
        if stored.0 == 1 {
            AnySocket::SocketTls(stored.1)
        } else {
            AnySocket::SocketTcp(stored.1)
        }
    }

    fn to_stored(self) -> (r: (u64, u64))
        ensures
            r == self.stored(),
    {
        match self {
            AnySocket::SocketTls(handle) => (1, handle),
            AnySocket::SocketTcp(handle) => (0, handle),
        }
    }

    fn from_stored(stored: (u64, u64)) -> (r: AnySocket)
        ensures
            r == AnySocket::restored(stored),
    {
        let (tag, handle) = stored;
        if tag == 1 {
            AnySocket::SocketTls(handle)
        } else {
            AnySocket::SocketTcp(handle)
        }
    }
}

/// Where a key stands.
spec fn index_of(entries: Seq<(u64, (u64, u64))>, key: u64) -> int {
    choose|i: int| 0 <= i < entries.len() && (#[trigger] entries[i]).0 == key
}

impl View for AbortTracker {
    type V = Map<u32, AnySocket>;

    closed spec fn view(&self) -> Map<u32, AnySocket> {
        Map::new(
            |id: u32| has_key(entries(self.map), id as u64),
            |id: u32|
                AnySocket::restored(
                    entries(self.map)[index_of(entries(self.map), id as u64)].1,
                ),
        )
    }
}

impl AbortTracker {
    pub closed spec fn wf(&self) -> bool {
        distinct_keys(entries(self.map))
    }

    pub fn new() -> (r: AbortTracker)
        ensures
            r.wf(),
            r@ == Map::<u32, AnySocket>::empty(),
    {
        let r = AbortTracker { map: ArrayMap::new() };
        assert(r@ =~= Map::empty());
        r
    }

    /// What stands at a position is what the map gives for its key.
    proof fn lemma_at(&self, i: int)
        requires
            self.wf(),
            0 <= i < entries(self.map).len(),
            entries(self.map)[i].0 <= u32::MAX,
        ensures
            self@.contains_key(entries(self.map)[i].0 as u32),
            self@[entries(self.map)[i].0 as u32] == AnySocket::restored(entries(self.map)[i].1),
    {
        let under = entries(self.map);
        let id = under[i].0 as u32;
        let j = index_of(under, id as u64);
        assert(has_key(under, id as u64));
        assert(0 <= j < under.len() && under[j].0 == id as u64);
        if i < j {
            assert(under[i].0 != under[j].0);
        } else if j < i {
            assert(under[j].0 != under[i].0);
        }
    }

    /// The request uses this socket from now on.
    pub fn put(&mut self, id: u32, socket: AnySocket)
        requires
            old(self).wf(),
        ensures
            final(self).wf(),
            final(self)@ == old(self)@.insert(id, socket),
    {
        let ghost before = entries(self.map);
        let ghost view_before = self@;
        let ghost self_before = *self;
        let value = socket.to_stored();
        self.map.put(id as u64, value);
        proof {
            let after = entries(self.map);
            let at = if has_key(before, id as u64) {
                index_of(before, id as u64)
            } else {
                before.len() as int
            };
            if has_key(before, id as u64) {
                assert(before[at].0 == id as u64);
                assert(after == before.update(at, (id as u64, value)));
            }
            assert(after[at] == (id as u64, value));
            assert forall|i: int, j: int| 0 <= i < j < after.len() implies (#[trigger] after[i]).0
                != (#[trigger] after[j]).0 by {
                if j < before.len() {
                    assert(before[i].0 != before[j].0);
                } else {
                    assert(before[i].0 == after[i].0);
                }
            }
            self.lemma_at(at);
            assert forall|other: u32| #[trigger]
                self@.contains_key(other) == view_before.insert(id, socket).contains_key(
                    other,
                ) by {
                if other != id && has_key(before, other as u64) {
                    assert(after[index_of(before, other as u64)].0 == other as u64);
                }
                if other != id && has_key(after, other as u64) {
                    assert(before[index_of(after, other as u64)].0 == other as u64);
                }
            }
            assert forall|other: u32| #[trigger] self@.contains_key(other) implies self@[other]
                == view_before.insert(id, socket)[other] by {
                if other != id {
                    let i = index_of(after, other as u64);
                    assert(after[i].0 == other as u64);
                    assert(before[i] == after[i]);
                    self.lemma_at(i);
                    self_before.lemma_at(i);
                }
            }
            assert(self@ =~= view_before.insert(id, socket));
        }
    }

    /// The socket of a request.
    pub fn get(&self, id: u32) -> (r: Option<AnySocket>)
        requires
            self.wf(),
        ensures
            r == if self@.contains_key(id) {
                Some(self@[id])
            } else {
                None
            },
    {
        match self.map.get_index(id as u64) {
            Some(i) => {
                proof {
                    self.lemma_at(i as int);
                }
                Some(AnySocket::from_stored(self.map.value_at(i)))
            },
            None => None,
        }
    }

    /// Forgets the socket of a request.
    pub fn remove(&mut self, id: u32) -> (r: Option<AnySocket>)
        requires
            old(self).wf(),
        ensures
            final(self).wf(),
            final(self)@ == old(self)@.remove(id),
            r == if old(self)@.contains_key(id) {
                Some(old(self)@[id])
            } else {
                None
            },
    {
        match self.map.get_index(id as u64) {
            Some(i) => {
                let ghost before = entries(self.map);
                let ghost view_before = self@;
                let ghost self_before = *self;
                proof {
                    self.lemma_at(i as int);
                    lemma_swap_removed_distinct(before, i as int);
                }
                let (_, value) = self.map.swap_remove_at(i);
                proof {
                    let after = entries(self.map);
                    assert forall|other: u32| #[trigger] self@.contains_key(other)
                        == view_before.remove(id).contains_key(other) by {
                        assert(has_key(before, other as u64) == view_before.contains_key(other));
                    }
                    assert forall|other: u32| #[trigger] self@.contains_key(other) implies self@[
                        other
                    ] == view_before.remove(id)[other] by {
                        let k = index_of(after, other as u64);
                        assert(after[k].0 == other as u64);
                        let from = if k == i {
                            before.len() - 1
                        } else {
                            k
                        };
                        assert(after[k] == before[from]);
                        self.lemma_at(k);
                        self_before.lemma_at(from);
                    }
                    assert(self@ =~= view_before.remove(id));
                }
                Some(AnySocket::from_stored(value))
            },
            None => {
                assert(self@ =~= self@.remove(id));
                None
            },
        }
    }
}

} // verus!
