use vstd::prelude::*;

verus! {

/// Filtering by two predicates gives the same sequence in either order.
pub proof fn lemma_filter_commutes<A>(s: Seq<A>, p: spec_fn(A) -> bool, q: spec_fn(A) -> bool)
    ensures
        s.filter(p).filter(q) == s.filter(q).filter(p),
    decreases s.len(),
{
    if s.len() > 0 {
        let rest = s.drop_last();
        let x = s.last();
        assert(s =~= rest.push(x));
        lemma_filter_commutes(rest, p, q);
        rest.lemma_filter_push(x, p);
        rest.lemma_filter_push(x, q);
        rest.filter(p).lemma_filter_push(x, q);
        rest.filter(q).lemma_filter_push(x, p);
    }
}

/// Filtering keeps a sequence whole when every element satisfies the predicate.
pub proof fn lemma_filter_keeps_all<A>(s: Seq<A>, p: spec_fn(A) -> bool)
    requires
        forall|i: int| 0 <= i < s.len() ==> p(#[trigger] s[i]),
    ensures
        s.filter(p) == s,
    decreases s.len(),
{
    if s.len() > 0 {
        let rest = s.drop_last();
        let x = s.last();
        assert(s =~= rest.push(x));
        assert forall|i: int| 0 <= i < rest.len() implies p(#[trigger] rest[i]) by {
            assert(rest[i] == s[i]);
        }
        lemma_filter_keeps_all(rest, p);
        rest.lemma_filter_push(x, p);
    } else {
        reveal(Seq::filter);
    }
}

/// Filtering shortens a sequence when some element fails the predicate.
pub proof fn lemma_filter_drops<A>(s: Seq<A>, p: spec_fn(A) -> bool, i: int)
    requires
        0 <= i < s.len(),
        !p(s[i]),
    ensures
        s.filter(p).len() < s.len(),
    decreases s.len(),
{
    let rest = s.drop_last();
    let x = s.last();
    assert(s =~= rest.push(x));
    rest.lemma_filter_push(x, p);
    rest.lemma_filter_len(p);
    if i < s.len() - 1 {
        assert(rest[i] == s[i]);
        lemma_filter_drops(rest, p, i);
    }
}

/// Filtering finds nothing exactly when no element satisfies the predicate.
pub proof fn lemma_filter_empty<A>(s: Seq<A>, p: spec_fn(A) -> bool)
    ensures
        (s.filter(p).len() == 0) <==> (forall|i: int| 0 <= i < s.len() ==> !p(#[trigger] s[i])),
    decreases s.len(),
{
    if s.len() == 0 {
        reveal(Seq::filter);
    } else {
        let rest = s.drop_last();
        let x = s.last();
        assert(s =~= rest.push(x));
        rest.lemma_filter_push(x, p);
        lemma_filter_empty(rest, p);
        if forall|i: int| 0 <= i < s.len() ==> !p(#[trigger] s[i]) {
            assert forall|i: int| 0 <= i < rest.len() implies !p(#[trigger] rest[i]) by {
                assert(rest[i] == s[i]);
            }
            assert(!p(s[s.len() - 1]));
        }
        if s.filter(p).len() == 0 {
            assert forall|i: int| 0 <= i < s.len() implies !p(#[trigger] s[i]) by {
                if i < s.len() - 1 {
                    assert(rest[i] == s[i]);
                }
            }
        }
    }
}

/// When two predicates never hold together, filtering by their disjunction keeps
/// as many elements as filtering by each of them separately.
pub proof fn lemma_filter_len_split<A>(
    s: Seq<A>,
    p: spec_fn(A) -> bool,
    q: spec_fn(A) -> bool,
    either: spec_fn(A) -> bool,
)
    requires
        forall|x: A| #[trigger] either(x) == (p(x) || q(x)),
        forall|x: A| !(#[trigger] p(x) && q(x)),
    ensures
        s.filter(either).len() == s.filter(p).len() + s.filter(q).len(),
    decreases s.len(),
{
    if s.len() == 0 {
        reveal(Seq::filter);
    } else {
        let rest = s.drop_last();
        let x = s.last();
        assert(s =~= rest.push(x));
        rest.lemma_filter_push(x, p);
        rest.lemma_filter_push(x, q);
        rest.lemma_filter_push(x, either);
        lemma_filter_len_split(rest, p, q, either);
    }
}

} // verus!
