//! Pages over a sequence ordered by a strictly increasing key (pts for
//! commits, version for entity changes), and what paging through it yields.
use vstd::prelude::*;

verus! {

/// Every key is above the keys before it.
pub open spec fn strictly_increasing(ks: Seq<u64>) -> bool {
    forall|i: int, j: int| 0 <= i < j < ks.len() ==> ks[i] < ks[j]
}

/// Number of leading keys that are not above `after`; for increasing keys,
/// the index of the first key above `after`.
pub open spec fn split_index(ks: Seq<u64>, after: u64) -> int
    decreases ks.len(),
{
    if ks.len() == 0 {
        0
    } else if ks[0] > after {
        0
    } else {
        1 + split_index(ks.subrange(1, ks.len() as int), after)
    }
}

/// End (exclusive) of the page of at most `limit` keys above `after`.
pub open spec fn page_end(ks: Seq<u64>, after: u64, limit: nat) -> int {
    let lo = split_index(ks, after);
    if lo + limit < ks.len() {
        lo + limit
    } else {
        ks.len() as int
    }
}

/// Keys above `after` remain beyond the page of at most `limit`.
pub open spec fn page_has_more(ks: Seq<u64>, after: u64, limit: nat) -> bool {
    split_index(ks, after) + limit < ks.len()
}

/// The items whose key is above `after`, at most `limit` of them.
pub open spec fn page_of<A>(s: Seq<A>, ks: Seq<u64>, after: u64, limit: nat) -> Seq<A> {
    s.subrange(split_index(ks, after), page_end(ks, after, limit))
}

/// The items whose key is above `after`.
pub open spec fn all_after<A>(s: Seq<A>, ks: Seq<u64>, after: u64) -> Seq<A> {
    s.subrange(split_index(ks, after), s.len() as int)
}

/// What a client gathers in at most `calls` requests of `limit` items,
/// starting after `after` and passing the last key received to the next
/// request, until a page says that nothing more follows; `None` when
/// `calls` requests do not get there.
pub open spec fn drain<A>(s: Seq<A>, ks: Seq<u64>, after: u64, limit: nat, calls: nat) -> Option<
    Seq<A>,
>
    decreases calls,
{
    if calls == 0 {
        None
    } else if !page_has_more(ks, after, limit) {
        Some(page_of(s, ks, after, limit))
    } else if limit == 0 {
        None
    } else {
        let hi = page_end(ks, after, limit);
        match drain(s, ks, ks[hi - 1], limit, (calls - 1) as nat) {
            Some(rest) => Some(page_of(s, ks, after, limit) + rest),
            None => None,
        }
    }
}

/// `split_index` is the first index whose key is above `after`.
pub proof fn lemma_split_index_at(ks: Seq<u64>, after: u64, i: int)
    requires
        0 <= i <= ks.len(),
        forall|j: int| 0 <= j < i ==> ks[j] <= after,
        i == ks.len() || ks[i] > after,
    ensures
        split_index(ks, after) == i,
    decreases i,
{
    if i > 0 {
        let tail = ks.subrange(1, ks.len() as int);
        assert forall|j: int| 0 <= j < i - 1 implies tail[j] <= after by {
            assert(tail[j] == ks[j + 1]);
        }
        lemma_split_index_at(tail, after, i - 1);
    }
}

/// On increasing keys, `split_index` separates the keys up to `after` from
/// those above it.
pub proof fn lemma_split_index_bounds(ks: Seq<u64>, after: u64)
    requires
        strictly_increasing(ks),
    ensures
        0 <= split_index(ks, after) <= ks.len(),
        forall|j: int| 0 <= j < split_index(ks, after) ==> ks[j] <= after,
        forall|j: int| split_index(ks, after) <= j < ks.len() ==> ks[j] > after,
    decreases ks.len(),
{
    if ks.len() > 0 && ks[0] <= after {
        let tail = ks.subrange(1, ks.len() as int);
        lemma_split_index_bounds(tail, after);
        assert forall|j: int| 0 <= j < split_index(ks, after) implies ks[j] <= after by {
            if j > 0 {
                assert(ks[j] == tail[j - 1]);
            }
        }
        assert forall|j: int| split_index(ks, after) <= j < ks.len() implies ks[j] > after by {
            assert(ks[j] == tail[j - 1]);
        }
    }
}

/// Following a page that says more follows, the next page starts right
/// where it ended, so nothing is skipped and nothing repeats.
pub proof fn lemma_next_page_starts_at_end(ks: Seq<u64>, after: u64, limit: nat)
    requires
        strictly_increasing(ks),
        page_has_more(ks, after, limit),
        limit > 0,
    ensures
        split_index(ks, ks[page_end(ks, after, limit) - 1]) == page_end(ks, after, limit),
        split_index(ks, after) < page_end(ks, after, limit),
{
    lemma_split_index_bounds(ks, after);
    let hi = page_end(ks, after, limit);
    lemma_split_index_at(ks, ks[hi - 1], hi);
}

/// Paging through to the end gathers exactly the items above the start,
/// in order.
pub proof fn lemma_drain_gathers_all<A>(
    s: Seq<A>,
    ks: Seq<u64>,
    after: u64,
    limit: nat,
    calls: nat,
)
    requires
        s.len() == ks.len(),
        strictly_increasing(ks),
        drain(s, ks, after, limit, calls) is Some,
    ensures
        drain(s, ks, after, limit, calls) == Some(all_after(s, ks, after)),
    decreases calls,
{
    lemma_split_index_bounds(ks, after);
    if page_has_more(ks, after, limit) {
        let hi = page_end(ks, after, limit);
        lemma_next_page_starts_at_end(ks, after, limit);
        lemma_drain_gathers_all(s, ks, ks[hi - 1], limit, (calls - 1) as nat);
        assert(page_of(s, ks, after, limit) + all_after(s, ks, ks[hi - 1]) =~= all_after(
            s,
            ks,
            after,
        ));
    }
}

/// With a positive page size, one request more than there are items
/// always reaches the end.
pub proof fn lemma_drain_finishes<A>(s: Seq<A>, ks: Seq<u64>, after: u64, limit: nat, calls: nat)
    requires
        strictly_increasing(ks),
        limit > 0,
        calls > ks.len() - split_index(ks, after),
    ensures
        drain(s, ks, after, limit, calls) is Some,
    decreases calls,
{
    lemma_split_index_bounds(ks, after);
    if page_has_more(ks, after, limit) {
        let hi = page_end(ks, after, limit);
        lemma_next_page_starts_at_end(ks, after, limit);
        lemma_drain_finishes(s, ks, ks[hi - 1], limit, (calls - 1) as nat);
    }
}

} // verus!
