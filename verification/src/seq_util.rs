//! Small sequence lemmas shared by the per-frame passes that map a
//! transformation over every entity and drop the ones that left the field.

use vstd::prelude::*;

verus! {

/// Appending one element commutes with a map-then-filter pass: the element's
/// image is kept exactly when it satisfies the predicate.
pub proof fn lemma_map_filter_push<A, B>(s: Seq<A>, x: A, f: spec_fn(A) -> B, p: spec_fn(B) -> bool)
    ensures
        s.push(x).map_values(f).filter(p) == if p(f(x)) {
            s.map_values(f).filter(p).push(f(x))
        } else {
            s.map_values(f).filter(p)
        },
{
    reveal(Seq::filter);
    let t = s.push(x).map_values(f);
    assert(t.drop_last() =~= s.map_values(f));
    assert(t.last() == f(x));
    assert(t =~= t.drop_last().push(t.last()));
    if p(f(x)) {
        assert(t.filter(p) =~= s.map_values(f).filter(p).push(f(x)));
    } else {
        assert(t.filter(p) =~= s.map_values(f).filter(p));
    }
}

/// Appending one element commutes with a filter pass.
pub proof fn lemma_filter_push<A>(s: Seq<A>, x: A, p: spec_fn(A) -> bool)
    ensures
        s.push(x).filter(p) == if p(x) {
            s.filter(p).push(x)
        } else {
            s.filter(p)
        },
{
    reveal(Seq::filter);
    assert(s.push(x).drop_last() =~= s);
}

/// A map-then-filter pass over the empty sequence is empty.
pub proof fn lemma_map_filter_empty<A, B>(f: spec_fn(A) -> B, p: spec_fn(B) -> bool)
    ensures
        Seq::<A>::empty().map_values(f).filter(p) == Seq::<B>::empty(),
{
    reveal(Seq::filter);
    assert(Seq::<A>::empty().map_values(f) =~= Seq::<B>::empty());
}

} // verus!
