//! Facts about sequences shared by several modules.

use vstd::prelude::*;

verus! {

/// Filtering keeps a sequence whole when every element passes.
pub proof fn lemma_filter_keeps_all<A>(s: Seq<A>, f: spec_fn(A) -> bool)
    requires
        forall|j: int| 0 <= j < s.len() ==> f(#[trigger] s[j]),
    ensures
        s.filter(f) == s,
    decreases s.len(),
{
    reveal(Seq::filter);
    if s.len() > 0 {
        lemma_filter_keeps_all(s.drop_last(), f);
        assert(s.drop_last().push(s.last()) =~= s);
    }
}

} // verus!
