//! Facts about sequences that several modules use.

use vstd::prelude::*;

verus! {

/// One more element, kept or dropped by `pred`.
pub proof fn lemma_filter_take<A>(s: Seq<A>, pred: spec_fn(A) -> bool, i: int)
    requires
        0 <= i < s.len(),
    ensures
        s.take(i + 1).filter(pred) == if pred(s[i]) {
            s.take(i).filter(pred).push(s[i])
        } else {
            s.take(i).filter(pred)
        },
{
    assert(s.take(i + 1) =~= s.take(i).push(s[i]));
    s.take(i).lemma_filter_push(s[i], pred);
}

} // verus!
