//! A fact about `Seq::filter` that the proofs of this library share.

use vstd::prelude::*;

verus! {

/// `s.push(x)` filtered is `s` filtered, with `x` behind it if `x` passes.
pub proof fn lemma_filter_push<A>(s: Seq<A>, x: A, pred: spec_fn(A) -> bool)
    ensures
        pred(x) ==> s.push(x).filter(pred) == s.filter(pred).push(x),
        !pred(x) ==> s.push(x).filter(pred) == s.filter(pred),
{
    reveal(Seq::filter);
    assert(s.push(x).drop_last() =~= s);
}

} // verus!
