use vstd::pervasive::unreached;
use vstd::prelude::*;

use super::proxy_tunnel::{ProxyTunnel, TunnelView};

verus! {

/// Names a live tunnel.
pub type TunnelId = usize;

/// The tunnels that are alive. A tunnel stays as long as anyone holds a
/// reference to it, and is destroyed with the last one.
pub struct TunnelHeap {
    slots: Vec<Option<ProxyTunnel>>,
}

impl View for TunnelHeap {
    type V = Map<TunnelId, TunnelView>;

    closed spec fn view(&self) -> Map<TunnelId, TunnelView> {
        Map::new(
            |id: TunnelId| id < self.slots@.len() && self.slots@[id as int] is Some,
            |id: TunnelId| self.slots@[id as int]->0@,
        )
    }
}

impl TunnelHeap {
    /// Every tunnel that is alive is held, and is itself well formed.
    pub closed spec fn wf(&self) -> bool {
        forall|i: int|
            0 <= i < self.slots@.len() && #[trigger] self.slots@[i] is Some
                ==> self.slots@[i]->0.wf() && self.slots@[i]->0.ref_count > 0
    }

    pub fn new() -> (r: Self)
        ensures
            r.wf(),
            r@ == Map::<TunnelId, TunnelView>::empty(),
    {
        let r = TunnelHeap { slots: Vec::new() };
        assert(r@ =~= Map::empty());
        r
    }

    /// Whether `id` names a live tunnel.
    pub fn contains(&self, id: TunnelId) -> (r: bool)
        ensures
            r == self@.contains_key(id),
    {
        id < self.slots.len() && self.slots[id].is_some()
    }

    /// Reads a live tunnel.
    pub fn get(&self, id: TunnelId) -> (t: &ProxyTunnel)
        requires
            self.wf(),
            self@.contains_key(id),
        ensures
            t.wf(),
            t@ == self@[id],
            t.ref_count > 0,
    {
        match &self.slots[id] {
            Some(t) => t,
            None => unreached(),
        }
    }

    /// Gives access to a live tunnel. The heap stays well formed as long as the
    /// tunnel does and is still held when the access ends.
    pub fn get_mut(&mut self, id: TunnelId) -> (t: &mut ProxyTunnel)
        requires
            old(self).wf(),
            old(self)@.contains_key(id),
        ensures
            t.wf(),
            t@ == old(self)@[id],
            t.ref_count > 0,
            final(self)@ == old(self)@.insert(id, final(t)@),
            final(t).wf() && final(t).ref_count > 0 ==> final(self).wf(),
    {
        match &mut self.slots[id] {
            Some(t) => t,
            None => unreached(),
        }
    }

    /// Brings a tunnel to life under a name that no live tunnel has.
    pub fn insert(&mut self, tunnel: ProxyTunnel) -> (id: TunnelId)
        requires
            old(self).wf(),
            tunnel.wf(),
            tunnel.ref_count > 0,
        ensures
            final(self).wf(),
            !old(self)@.contains_key(id),
            final(self)@ == old(self)@.insert(id, tunnel@),
    {
        let mut id: usize = 0;
        while id < self.slots.len() && self.slots[id].is_some()
            invariant
                id <= self.slots.len(),
            decreases self.slots.len() - id,
        {
            id = id + 1;
        }
        if id < self.slots.len() {
            self.slots.set(id, Some(tunnel));
        } else {
            self.slots.push(Some(tunnel));
        }
        assert(self@ =~= old(self)@.insert(id, tunnel@));
        id
    }

    /// Takes one more reference to a live tunnel.
    pub fn ref_(&mut self, id: TunnelId)
        requires
            old(self).wf(),
            old(self)@.contains_key(id),
            old(self)@[id].ref_count < u32::MAX,
        ensures
            final(self).wf(),
            final(self)@ == retained(old(self)@, id),
    {
        self.get_mut(id).ref_();
    }

    /// Gives one reference to a live tunnel back; `true` when it was the last one
    /// and the tunnel is gone.
    pub fn deref(&mut self, id: TunnelId) -> (destroyed: bool)
        requires
            old(self).wf(),
            old(self)@.contains_key(id),
        ensures
            final(self).wf(),
            final(self)@ == released(old(self)@, id),
            destroyed == !final(self)@.contains_key(id),
    {
        if self.get(id).ref_count == 1 {
            self.slots.set(id, None);
            assert(self@ =~= old(self)@.remove(id));
            true
        } else {
            self.get_mut(id).deref()
        }
    }
}

/// The tunnels once a reference to `id` has been given back.
pub open spec fn released(tunnels: Map<TunnelId, TunnelView>, id: TunnelId) -> Map<
    TunnelId,
    TunnelView,
> {
    if tunnels[id].ref_count == 1 {
        tunnels.remove(id)
    } else {
        tunnels.insert(id, tunnels[id].with_refs(-1))
    }
}

/// The tunnels once a reference to `id` has been taken.
pub open spec fn retained(tunnels: Map<TunnelId, TunnelView>, id: TunnelId) -> Map<
    TunnelId,
    TunnelView,
> {
    tunnels.insert(id, tunnels[id].with_refs(1))
}

} // verus!
