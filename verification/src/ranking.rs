//! The order in which a withdrawal draws on the stake accounts of a pool.
use vstd::prelude::*;

use crate::address::{same_optional_address, Address};

verus! {

/// A stake account that a withdrawal may draw on, with the lamports in it and the
/// validator that it is delegated to.
#[derive(Clone, Copy, PartialEq, Eq, Debug)]
pub struct StakeSource {
    pub stake_address: Address,
    pub lamports: u64,
    pub vote_address: Option<Address>,
}

/// The source `a` comes before the source `b`: it is delegated to the preferred
/// validator and `b` is not, or neither is and it holds more lamports.
pub open spec fn ranks_before(
    preferred: Option<Address>,
    a: StakeSource,
    b: StakeSource,
) -> bool {
    &&& b.vote_address != preferred
    &&& a.vote_address == preferred || a.lamports > b.lamports
}

/// Neither source comes before the other.
pub open spec fn ranks_with(preferred: Option<Address>, a: StakeSource, b: StakeSource) -> bool {
    !ranks_before(preferred, a, b) && !ranks_before(preferred, b, a)
}

/// The sources that rank with `a`.
pub open spec fn peers(preferred: Option<Address>, a: StakeSource) -> spec_fn(
    StakeSource,
) -> bool {
    |b: StakeSource| ranks_with(preferred, a, b)
}

/// No source of `s` comes before one that stands ahead of it.
pub open spec fn in_rank_order(preferred: Option<Address>, s: Seq<StakeSource>) -> bool {
    forall|i: int, j: int|
        0 <= i < j < s.len() ==> !ranks_before(preferred, #[trigger] s[j], #[trigger] s[i])
}

/// `ranked` holds the sources of `listed` in rank order, and sources that rank with
/// each other in the order in which `listed` has them.
pub open spec fn is_ranking(
    preferred: Option<Address>,
    ranked: Seq<StakeSource>,
    listed: Seq<StakeSource>,
) -> bool {
    &&& in_rank_order(preferred, ranked)
    &&& forall|a: StakeSource|
        ranked.filter(#[trigger] peers(preferred, a)) == listed.filter(peers(preferred, a))
    &&& ranked.len() == listed.len()
}

/// Tells whether the source `a` comes before the source `b`.
fn comes_before(preferred: &Option<Address>, a: &StakeSource, b: &StakeSource) -> (r: bool)
    ensures
        r == ranks_before(*preferred, *a, *b),
{
    !same_optional_address(&b.vote_address, preferred) && (same_optional_address(
        &a.vote_address,
        preferred,
    ) || a.lamports > b.lamports)
}

/// Sorts sources: those of the preferred validator first, then those that hold more
/// lamports; sources that rank with each other keep their order.
pub fn sorted_accounts(listed: &Vec<StakeSource>, preferred: &Option<Address>) -> (ranked: Vec<
    StakeSource,
>)
    ensures
        is_ranking(*preferred, ranked@, listed@),
{
    let mut ranked: Vec<StakeSource> = Vec::new();
    let mut n: usize = 0;
    assert(listed@.take(0) =~= ranked@);
    while n < listed.len()
        invariant
            n <= listed.len(),
            is_ranking(*preferred, ranked@, listed@.take(n as int)),
        decreases listed.len() - n,
    {
        let source = listed[n];
        let ghost before = ranked@;
        let mut p: usize = ranked.len();
        while p > 0 && comes_before(preferred, &source, &ranked[p - 1])
            invariant
                p <= ranked.len(),
                ranked@ == before,
                forall|j: int| p <= j < before.len() ==> ranks_before(*preferred, source, #[trigger] before[j]),
            decreases p,
        {
            p = p - 1;
        }
        ranked.insert(p, source);
        proof {
            assert(listed@.take(n + 1) =~= listed@.take(n as int).push(source));
            lemma_insert_keeps_ranking(*preferred, before, listed@.take(n as int), p as int, source);
        }
        n = n + 1;
    }
    assert(listed@.take(listed@.len() as int) =~= listed@);
    ranked
}

proof fn lemma_insert_keeps_ranking(
    preferred: Option<Address>,
    ranked: Seq<StakeSource>,
    listed: Seq<StakeSource>,
    p: int,
    source: StakeSource,
)
    requires
        is_ranking(preferred, ranked, listed),
        0 <= p <= ranked.len(),
        p > 0 ==> !ranks_before(preferred, source, ranked[p - 1]),
        forall|j: int| p <= j < ranked.len() ==> ranks_before(preferred, source, #[trigger] ranked[j]),
    ensures
        is_ranking(preferred, ranked.insert(p, source), listed.push(source)),
{
    let t = ranked.insert(p, source);
    assert forall|i: int, j: int| 0 <= i < j < t.len() implies !ranks_before(
        preferred,
        #[trigger] t[j],
        #[trigger] t[i],
    ) by {
        if j == p && i < p - 1 {
            assert(!ranks_before(preferred, ranked[p - 1], ranked[i]));
        }
    }
    assert forall|a: StakeSource|
        t.filter(#[trigger] peers(preferred, a)) == listed.push(source).filter(
            peers(preferred, a),
        ) by {
        let f = peers(preferred, a);
        let head = ranked.take(p);
        let tail = ranked.skip(p);
        assert(ranked =~= head + tail);
        assert(t =~= head.push(source) + tail);
        Seq::filter_distributes_over_add(head, tail, f);
        Seq::filter_distributes_over_add(head.push(source), tail, f);
        head.lemma_filter_push(source, f);
        listed.lemma_filter_push(source, f);
        if f(source) {
            assert forall|j: int| 0 <= j < tail.len() implies !f(#[trigger] tail[j]) by {
                assert(ranks_before(preferred, source, ranked[p + j]));
            }
            lemma_filter_none(tail, f);
            assert(ranked.filter(f) =~= head.filter(f));
            assert(t.filter(f) =~= head.filter(f).push(source));
        }
    }
}

proof fn lemma_filter_none(s: Seq<StakeSource>, f: spec_fn(StakeSource) -> bool)
    requires
        forall|j: int| 0 <= j < s.len() ==> !f(#[trigger] s[j]),
    ensures
        s.filter(f).len() == 0,
    decreases s.len(),
{
    reveal(Seq::filter);
    if s.len() > 0 {
        assert(s[s.len() - 1] == s.last());
        lemma_filter_none(s.drop_last(), f);
    }
}

/// A ranking is determined by what it ranks: there is only one of each list.
pub proof fn law_ranking_is_determined(
    preferred: Option<Address>,
    first: Seq<StakeSource>,
    second: Seq<StakeSource>,
    listed: Seq<StakeSource>,
)
    requires
        is_ranking(preferred, first, listed),
        is_ranking(preferred, second, listed),
    ensures
        first == second,
{
    assert forall|a: StakeSource|
        first.filter(#[trigger] peers(preferred, a)) == second.filter(peers(preferred, a)) by {}
    lemma_ranked_alike(preferred, first, second);
}

/// A ranking holds the sources of the list, each as often as the list does.
pub proof fn law_ranking_permutes(
    preferred: Option<Address>,
    ranked: Seq<StakeSource>,
    listed: Seq<StakeSource>,
)
    requires
        is_ranking(preferred, ranked, listed),
    ensures
        ranked.to_multiset() == listed.to_multiset(),
{
    ranked.to_multiset_ensures();
    listed.to_multiset_ensures();
    assert forall|a: StakeSource|
        ranked.to_multiset().count(a) == listed.to_multiset().count(a) by {
        let f = peers(preferred, a);
        lemma_count_in_filter(ranked, f, a);
        lemma_count_in_filter(listed, f, a);
    }
    assert(ranked.to_multiset() =~= listed.to_multiset());
}

/// A source of the preferred validator comes before every other one.
pub proof fn law_preferred_come_first(
    preferred: Option<Address>,
    ranked: Seq<StakeSource>,
    listed: Seq<StakeSource>,
    i: int,
    j: int,
)
    requires
        is_ranking(preferred, ranked, listed),
        0 <= i < ranked.len(),
        0 <= j < ranked.len(),
        ranked[i].vote_address == preferred,
        ranked[j].vote_address != preferred,
    ensures
        i < j,
{
}

/// Among the other sources, none comes after one that holds fewer lamports.
pub proof fn law_larger_come_earlier(
    preferred: Option<Address>,
    ranked: Seq<StakeSource>,
    listed: Seq<StakeSource>,
    i: int,
    j: int,
)
    requires
        is_ranking(preferred, ranked, listed),
        0 <= i < j < ranked.len(),
        ranked[i].vote_address != preferred,
    ensures
        ranked[j].lamports <= ranked[i].lamports,
{
}

proof fn lemma_count_in_filter(
    s: Seq<StakeSource>,
    f: spec_fn(StakeSource) -> bool,
    a: StakeSource,
)
    requires
        f(a),
    ensures
        s.to_multiset().count(a) == s.filter(f).to_multiset().count(a),
    decreases s.len(),
{
    reveal(Seq::filter);
    s.to_multiset_ensures();
    s.filter(f).to_multiset_ensures();
    if s.len() > 0 {
        let rest = s.drop_last();
        lemma_count_in_filter(rest, f, a);
        rest.to_multiset_ensures();
        rest.filter(f).to_multiset_ensures();
        assert(s =~= rest.push(s.last()));
    }
}

proof fn lemma_ranked_alike(
    preferred: Option<Address>,
    first: Seq<StakeSource>,
    second: Seq<StakeSource>,
)
    requires
        in_rank_order(preferred, first),
        in_rank_order(preferred, second),
        first.len() == second.len(),
        forall|a: StakeSource|
            first.filter(#[trigger] peers(preferred, a)) == second.filter(peers(preferred, a)),
    ensures
        first == second,
    decreases first.len(),
{
    reveal(Seq::filter);
    if first.len() == 0 {
        assert(first =~= second);
    } else {
        let x = first.last();
        let y = second.last();
        let fx = peers(preferred, x);
        let fy = peers(preferred, y);
        assert(first.filter(fx).last() == x);
        assert(second.filter(fy).last() == y);
        // Each last source also stands somewhere in the other sequence.
        second.lemma_filter_contains_rev(fx, x);
        first.lemma_filter_contains_rev(fy, y);
        let i = choose|i: int| 0 <= i < second.len() && second[i] == x;
        let j = choose|j: int| 0 <= j < first.len() && first[j] == y;
        if i < second.len() - 1 {
            assert(!ranks_before(preferred, second[second.len() - 1], second[i]));
        }
        if j < first.len() - 1 {
            assert(!ranks_before(preferred, first[first.len() - 1], first[j]));
        }
        assert(fx(y));
        assert(second.filter(fx).last() == y);
        let a = first.drop_last();
        let b = second.drop_last();
        assert forall|c: StakeSource|
            a.filter(#[trigger] peers(preferred, c)) == b.filter(peers(preferred, c)) by {
            let f = peers(preferred, c);
            assert(first.filter(f) == second.filter(f));
            if f(x) {
                assert(a.filter(f) =~= first.filter(f).drop_last());
                assert(b.filter(f) =~= second.filter(f).drop_last());
            }
        }
        lemma_ranked_alike(preferred, a, b);
        assert(first =~= a.push(x));
        assert(second =~= b.push(y));
    }
}

proof fn lemma_filter_keeps_order(
    s: Seq<StakeSource>,
    f: spec_fn(StakeSource) -> bool,
    i: int,
    j: int,
)
    requires
        0 <= i < j < s.len(),
        f(s[i]),
        f(s[j]),
    ensures
        exists|p: int, q: int|
            0 <= p < q < s.filter(f).len() && #[trigger] s.filter(f)[p] == s[i]
                && #[trigger] s.filter(f)[q] == s[j],
    decreases s.len(),
{
    reveal(Seq::filter);
    let rest = s.drop_last();
    let t = s.filter(f);
    if j < s.len() - 1 {
        lemma_filter_keeps_order(rest, f, i, j);
        let (p, q) = choose|p: int, q: int|
            0 <= p < q < rest.filter(f).len() && #[trigger] rest.filter(f)[p] == rest[i]
                && #[trigger] rest.filter(f)[q] == rest[j];
        assert(t[p] == s[i] && t[q] == s[j]);
    } else {
        assert(rest[i] == s[i]);
        assert(rest.contains(s[i]));
        rest.lemma_filter_contains(f, i);
        let p = choose|p: int| 0 <= p < rest.filter(f).len() && rest.filter(f)[p] == s[i];
        assert(t[p] == s[i]);
        assert(t[t.len() - 1] == s[j]);
    }
}

proof fn lemma_order_in_filter_is_order(
    s: Seq<StakeSource>,
    f: spec_fn(StakeSource) -> bool,
    p: int,
    q: int,
)
    requires
        0 <= p < q < s.filter(f).len(),
    ensures
        exists|i: int, j: int|
            0 <= i < j < s.len() && #[trigger] s[i] == s.filter(f)[p] && #[trigger] s[j]
                == s.filter(f)[q],
    decreases s.len(),
{
    reveal(Seq::filter);
    let rest = s.drop_last();
    let t = s.filter(f);
    if q < rest.filter(f).len() {
        lemma_order_in_filter_is_order(rest, f, p, q);
        let (i, j) = choose|i: int, j: int|
            0 <= i < j < rest.len() && #[trigger] rest[i] == rest.filter(f)[p]
                && #[trigger] rest[j] == rest.filter(f)[q];
        assert(s[i] == t[p] && s[j] == t[q]);
    } else {
        assert(rest.filter(f)[p] == t[p]);
        assert(rest.filter(f).contains(t[p]));
        rest.lemma_filter_contains_rev(f, t[p]);
        let i = choose|i: int| 0 <= i < rest.len() && rest[i] == t[p];
        assert(s[i] == t[p]);
        assert(s[s.len() - 1] == t[q]);
    }
}

/// Sources of the preferred validator keep the order in which they are listed, and so do other
/// sources that hold as many lamports as each other.
pub proof fn law_equal_sources_keep_their_order(
    preferred: Option<Address>,
    ranked: Seq<StakeSource>,
    listed: Seq<StakeSource>,
    i: int,
    j: int,
)
    requires
        is_ranking(preferred, ranked, listed),
        0 <= i < j < listed.len(),
        listed[i].vote_address == preferred && listed[j].vote_address == preferred
            || listed[i].vote_address != preferred && listed[j].vote_address != preferred
            && listed[i].lamports == listed[j].lamports,
    ensures
        exists|p: int, q: int|
            0 <= p < q < ranked.len() && #[trigger] ranked[p] == listed[i] && #[trigger] ranked[q]
                == listed[j],
{
    let f = peers(preferred, listed[i]);
    assert(f(listed[i]) && f(listed[j]));
    assert(ranked.filter(f) == listed.filter(f));
    lemma_filter_keeps_order(listed, f, i, j);
    let (p, q) = choose|p: int, q: int|
        0 <= p < q < listed.filter(f).len() && #[trigger] listed.filter(f)[p] == listed[i]
            && #[trigger] listed.filter(f)[q] == listed[j];
    lemma_order_in_filter_is_order(ranked, f, p, q);
}

} // verus!
