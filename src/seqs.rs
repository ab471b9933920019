use vstd::prelude::*;

verus! {

/// The last element of `s` that satisfies `p`, if any.
pub open spec fn last_of<A>(s: Seq<A>, p: spec_fn(A) -> bool) -> Option<A> {
    let f = s.filter(p);
    if f.len() == 0 {
        None
    } else {
        Some(f.last())
    }
}

/// Filtering a sequence with one more element at its end.
pub proof fn lemma_filter_push<A>(s: Seq<A>, x: A, p: spec_fn(A) -> bool)
    ensures
        s.push(x).filter(p) == (if p(x) {
            s.filter(p).push(x)
        } else {
            s.filter(p)
        }),
{
    reveal(Seq::filter);
    assert(s.push(x).drop_last() =~= s);
}

/// Filtering one more element of a prefix.
pub proof fn lemma_filter_prefix_step<A>(s: Seq<A>, p: spec_fn(A) -> bool, i: int)
    requires
        0 <= i < s.len(),
    ensures
        s.subrange(0, i + 1).filter(p) == (if p(s[i]) {
            s.subrange(0, i).filter(p).push(s[i])
        } else {
            s.subrange(0, i).filter(p)
        }),
{
    assert(s.subrange(0, i + 1) =~= s.subrange(0, i).push(s[i]));
    lemma_filter_push(s.subrange(0, i), s[i], p);
}

/// What a prefix keeps is a prefix of what the whole sequence keeps.
pub proof fn lemma_filter_prefix<A>(s: Seq<A>, p: spec_fn(A) -> bool, i: int)
    requires
        0 <= i <= s.len(),
    ensures
        s.subrange(0, i).filter(p).len() <= s.filter(p).len(),
        forall|k: int|
            0 <= k < s.subrange(0, i).filter(p).len() ==> #[trigger] s.subrange(0, i).filter(p)[k]
                == s.filter(p)[k],
    decreases s.len() - i,
{
    if i == s.len() {
        assert(s.subrange(0, i) =~= s);
    } else {
        lemma_filter_prefix(s, p, i + 1);
        lemma_filter_prefix_step(s, p, i);
        let short = s.subrange(0, i).filter(p);
        let long = s.subrange(0, i + 1).filter(p);
        assert forall|k: int| 0 <= k < short.len() implies #[trigger] short[k] == s.filter(p)[k] by {
            assert(long[k] == short[k]);
            assert(long[k] == s.filter(p)[k]);
        }
    }
}

/// A filter that keeps nothing leaves nothing.
pub proof fn lemma_filter_none<A>(s: Seq<A>, p: spec_fn(A) -> bool)
    requires
        forall|i: int| 0 <= i < s.len() ==> !p(#[trigger] s[i]),
    ensures
        s.filter(p).len() == 0,
    decreases s.len(),
{
    reveal(Seq::filter);
    if s.len() > 0 {
        assert forall|i: int| 0 <= i < s.drop_last().len() implies !p(#[trigger] s.drop_last()[i]) by {
            assert(s.drop_last()[i] == s[i]);
        }
        lemma_filter_none(s.drop_last(), p);
    }
}

/// Where no element satisfies `p`, `last_of` finds none, and conversely.
pub proof fn lemma_last_of_none<A>(s: Seq<A>, p: spec_fn(A) -> bool)
    ensures
        last_of(s, p) is None <==> forall|i: int| 0 <= i < s.len() ==> !p(#[trigger] s[i]),
{
    if last_of(s, p) is None {
        assert forall|i: int| 0 <= i < s.len() implies !p(#[trigger] s[i]) by {
            if p(s[i]) {
                s.lemma_filter_contains(p, i);
            }
        }
    } else {
        let f = s.filter(p);
        s.lemma_filter_pred(p, f.len() - 1);
        assert(f.contains(f[f.len() - 1]));
        s.filter_lemma(p);
        if forall|i: int| 0 <= i < s.len() ==> !p(#[trigger] s[i]) {
            lemma_filter_none(s, p);
        }
    }
}

} // verus!
