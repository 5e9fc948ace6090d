//! Facts about sequences that the theorems on runs rest on.

use vstd::prelude::*;

verus! {

/// Filtering and mapping a concatenation is the same as doing so to its two
/// parts.
pub proof fn filter_map_concat<A, B>(a: Seq<A>, b: Seq<A>, f: spec_fn(A) -> Option<B>)
    ensures
        (a + b).filter_map(f) == a.filter_map(f) + b.filter_map(f),
    decreases b.len(),
{
    if b.len() == 0 {
        assert(a + b =~= a);
        assert(a.filter_map(f) + b.filter_map(f) =~= a.filter_map(f));
    } else {
        assert((a + b).drop_last() =~= a + b.drop_last());
        assert((a + b).last() == b.last());
        filter_map_concat(a, b.drop_last(), f);
        match f(b.last()) {
            Some(s) => {
                assert((a + b).filter_map(f) =~= a.filter_map(f) + b.filter_map(f));
            },
            None => {},
        }
    }
}

/// Filtering and mapping two elements is the same as doing so to each.
pub proof fn filter_map_pair<A, B>(x: A, y: A, f: spec_fn(A) -> Option<B>)
    ensures
        seq![x, y].filter_map(f) == seq![x].filter_map(f) + seq![y].filter_map(f),
{
    assert(seq![x, y] =~= seq![x] + seq![y]);
    filter_map_concat(seq![x], seq![y], f);
}

/// Filtering and mapping a sequence none of whose elements is kept gives the
/// empty sequence.
pub proof fn filter_map_nothing<A, B>(s: Seq<A>, f: spec_fn(A) -> Option<B>)
    requires
        forall|i: int| 0 <= i < s.len() ==> f(#[trigger] s[i]) is None,
    ensures
        s.filter_map(f) == Seq::<B>::empty(),
    decreases s.len(),
{
    if s.len() > 0 {
        assert(f(s[s.len() - 1]) is None);
        filter_map_nothing(s.drop_last(), f);
    }
}

} // verus!
