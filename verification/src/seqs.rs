//! Selections and counts over sequences, defined element by element from
//! the front, with the step lemmas that loops over prefixes use.
use vstd::prelude::*;

verus! {

/// The elements of `s` that `p` selects, in order.
pub open spec fn keep<A>(s: Seq<A>, p: spec_fn(A) -> bool) -> Seq<A>
    decreases s.len(),
{
    if s.len() == 0 {
        Seq::empty()
    } else {
        let r = keep(s.drop_last(), p);
        if p(s.last()) {
            r.push(s.last())
        } else {
            r
        }
    }
}

/// Extending a prefix by one element extends its selection by that element
/// exactly when `p` selects it.
pub proof fn lemma_keep_step<A>(s: Seq<A>, p: spec_fn(A) -> bool, i: int)
    requires
        0 <= i < s.len(),
    ensures
        keep(s.take(i + 1), p) == if p(s[i]) {
            keep(s.take(i), p).push(s[i])
        } else {
            keep(s.take(i), p)
        },
{
    assert(s.take(i + 1).drop_last() =~= s.take(i));
    assert(s.take(i + 1).last() == s[i]);
}

/// A selection is no longer than what it selects from.
pub proof fn lemma_keep_len<A>(s: Seq<A>, p: spec_fn(A) -> bool)
    ensures
        keep(s, p).len() <= s.len(),
    decreases s.len(),
{
    if s.len() > 0 {
        lemma_keep_len(s.drop_last(), p);
    }
}

} // verus!
