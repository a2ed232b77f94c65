//! Concatenation of per-element sequences, the shape shared by every
//! walk in this crate that reports or emits one batch per element.

use vstd::prelude::*;

verus! {

/// The concatenation `f(s[0]) + f(s[1]) + ... + f(s[len-1])`.
pub open spec fn concat_map<A, B>(s: Seq<A>, f: spec_fn(A) -> Seq<B>) -> Seq<B>
    decreases s.len(),
{
    if s.len() == 0 {
        Seq::empty()
    } else {
        f(s[0]) + concat_map(s.drop_first(), f)
    }
}

/// Extending the input by one element appends that element's batch.
pub proof fn lemma_concat_map_snoc<A, B>(s: Seq<A>, f: spec_fn(A) -> Seq<B>, x: A)
    ensures
        concat_map(s.push(x), f) == concat_map(s, f) + f(x),
    decreases s.len(),
{
    reveal_with_fuel(concat_map, 3);
    if s.len() == 0 {
        assert(s.push(x)[0] == x);
        assert(s.push(x).drop_first() =~= Seq::<A>::empty());
        assert(concat_map(s.push(x), f) =~= concat_map(s, f) + f(x));
    } else {
        assert(s.push(x)[0] == s[0]);
        assert(s.push(x).drop_first() =~= s.drop_first().push(x));
        lemma_concat_map_snoc(s.drop_first(), f, x);
        assert(f(s[0]) + (concat_map(s.drop_first(), f) + f(x)) =~= (f(s[0]) + concat_map(
            s.drop_first(),
            f,
        )) + f(x));
    }
}

/// The batches of a concatenation are the concatenations of the
/// batches.
pub proof fn lemma_concat_map_append<A, B>(a: Seq<A>, b: Seq<A>, f: spec_fn(A) -> Seq<B>)
    ensures
        concat_map(a + b, f) == concat_map(a, f) + concat_map(b, f),
    decreases a.len(),
{
    reveal_with_fuel(concat_map, 3);
    if a.len() == 0 {
        assert(a + b =~= b);
        assert(Seq::<B>::empty() + concat_map(b, f) =~= concat_map(b, f));
    } else {
        assert((a + b)[0] == a[0]);
        assert((a + b).drop_first() =~= a.drop_first() + b);
        lemma_concat_map_append(a.drop_first(), b, f);
        assert(f(a[0]) + (concat_map(a.drop_first(), f) + concat_map(b, f)) =~= (f(a[0])
            + concat_map(a.drop_first(), f)) + concat_map(b, f));
    }
}

} // verus!
