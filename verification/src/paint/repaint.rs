use vstd::prelude::*;

verus! {

/// Why a frame is to be painted again, as a set of bits.
#[derive(Copy, Clone, Debug, PartialEq, Eq, Structural)]
pub struct RepaintReason(u8);

impl View for RepaintReason {
    type V = u8;

    closed spec fn view(&self) -> u8 {
        self.0
    }
}

/// One bit of a set of reasons.
pub open spec fn holds(reasons: u8, bit: u8) -> bool {
    reasons & bit == bit
}

impl Default for RepaintReason {
    fn default() -> (r: Self)
        ensures
            r@ == 0,
    {
        RepaintReason(0)
    }
}

impl RepaintReason {
    pub fn ready_for_screenshot() -> (r: Self)
        ensures
            r@ == 1,
    {
        RepaintReason(1)
    }

    pub fn changed_animation_state() -> (r: Self)
        ensures
            r@ == 2,
    {
        RepaintReason(2)
    }

    pub fn new_web_render_frame() -> (r: Self)
        ensures
            r@ == 4,
    {
        RepaintReason(4)
    }

    pub fn resize() -> (r: Self)
        ensures
            r@ == 8,
    {
        RepaintReason(8)
    }

    pub fn started_flinging() -> (r: Self)
        ensures
            r@ == 16,
    {
        RepaintReason(16)
    }

    pub fn blinking_caret() -> (r: Self)
        ensures
            r@ == 32,
    {
        RepaintReason(32)
    }

    pub fn bits(&self) -> (r: u8)
        ensures
            r == self@,
    {
        self.0
    }

    /// Whether there is no reason.
    pub fn is_empty(&self) -> (r: bool)
        ensures
            r == (self@ == 0),
    {
        self.0 == 0
    }

    /// Whether every reason in `other` is also here.
    pub fn contains(&self, other: RepaintReason) -> (r: bool)
        ensures
            r == holds(self@, other@),
    {
        self.0 & other.0 == other.0
    }

    /// Adds the reasons in `other` to those that are here.
    pub fn insert(&mut self, other: RepaintReason)
        ensures
            final(self)@ == old(self)@ | other@,
    {
        self.0 = self.0 | other.0;
    }
}

/// A reason, once added, is there, and none that was there goes away.
pub proof fn reasons_accumulate(reasons: u8, added: u8, other: u8)
    ensures
        holds(reasons | added, added),
        holds(reasons, other) ==> holds(reasons | added, other),
{
    assert((reasons | added) & added == added) by (bit_vector);
    assert((reasons & other == other) ==> ((reasons | added) & other == other)) by (bit_vector);
}

} // verus!
