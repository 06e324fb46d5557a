//! Whether the embedder is going down, as those see it who share that state.

use vstd::prelude::*;

use super::messages::ShutdownState;

verus! {

/// Names a state that several share.
pub type StateId = usize;

/// The shared states. What one of those who share a state sets, all of them see.
pub struct ShutdownStates {
    states: Vec<ShutdownState>,
}

impl View for ShutdownStates {
    type V = Seq<ShutdownState>;

    closed spec fn view(&self) -> Seq<ShutdownState> {
        self.states@
    }
}

impl ShutdownStates {
    pub fn new() -> (r: ShutdownStates)
        ensures
            r@ == Seq::<ShutdownState>::empty(),
    {
        ShutdownStates { states: Vec::new() }
    }

    /// Makes a state to be shared.
    pub fn share(&mut self, state: ShutdownState) -> (id: StateId)
        ensures
            id == old(self)@.len(),
            final(self)@ == old(self)@.push(state),
    {
        self.states.push(state);
        self.states.len() - 1
    }

    /// Whether `id` names a state.
    pub fn contains(&self, id: StateId) -> (r: bool)
        ensures
            r == (id < self@.len()),
    {
        id < self.states.len()
    }

    pub fn get(&self, id: StateId) -> (r: ShutdownState)
        requires
            id < self@.len(),
        ensures
            r == self@[id as int],
    {
        self.states[id]
    }

    pub fn set(&mut self, id: StateId, state: ShutdownState)
        requires
            id < old(self)@.len(),
        ensures
            final(self)@ == old(self)@.update(id as int, state),
    {
        self.states.set(id, state);
    }
}

} // verus!
