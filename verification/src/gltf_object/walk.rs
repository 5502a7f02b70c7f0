//! Following the links of chosen records into the collections that they
//! point to: which records are reached, in which order, and which link is the
//! first that points nowhere.

use crate::gltf_object::record::{link_known, Record};
use crate::ops::VecExt;
use vstd::prelude::*;

verus! {

/// `order` with `x` at its end, unless `x` is in it already.
pub open spec fn push_unique(order: Seq<usize>, x: usize) -> Seq<usize> {
    if order.contains(x) {
        order
    } else {
        order.push(x)
    }
}

/// `order` after `link` was seen.
pub open spec fn noted(order: Seq<usize>, link: Option<usize>) -> Seq<usize> {
    match link {
        Some(x) => push_unique(order, x),
        None => order,
    }
}

/// `start`, followed by what `links` names and `start` lacks: each index
/// once, at the place where it was first seen.
pub open spec fn collect(start: Seq<usize>, links: Seq<Option<usize>>) -> Seq<usize>
    decreases links.len(),
{
    if links.len() == 0 {
        start
    } else {
        noted(collect(start, links.drop_last()), links.last())
    }
}

/// The first links of the chosen records, in the order of `chosen`.
pub open spec fn first_links<R: Record>(records: Seq<R>, chosen: Seq<usize>) -> Seq<Option<usize>> {
    Seq::new(chosen.len(), |k: int| records[chosen[k] as int].first_link())
}

/// The second links of the chosen records, in the order of `chosen`.
pub open spec fn second_links<R: Record>(records: Seq<R>, chosen: Seq<usize>) -> Seq<
    Option<usize>,
> {
    Seq::new(chosen.len(), |k: int| records[chosen[k] as int].second_link())
}

/// A link that points past the end of its collection: the first or the
/// second link of a record, with the index that it holds.
#[derive(Clone, Copy, Debug, PartialEq, Eq, Structural)]
pub enum Dangling {
    First(usize),
    Second(usize),
}

/// Whether `link` points past the end of a collection of `limit` records.
pub open spec fn dangles(link: Option<usize>, limit: nat) -> bool {
    link matches Some(x) && x >= limit
}

/// Whether the record at place `i` has a link that dangles.
pub open spec fn dangling_at(
    first: Seq<Option<usize>>,
    first_limit: nat,
    second: Seq<Option<usize>>,
    second_limit: nat,
    i: int,
) -> bool {
    0 <= i < first.len() && (dangles(first[i], first_limit) || dangles(second[i], second_limit))
}

/// Whether the record at place `i` is the first with a link that dangles.
pub open spec fn first_dangling_at(
    first: Seq<Option<usize>>,
    first_limit: nat,
    second: Seq<Option<usize>>,
    second_limit: nat,
    i: int,
) -> bool {
    &&& dangling_at(first, first_limit, second, second_limit, i)
    &&& forall|j: int| 0 <= j < i ==> !dangling_at(first, first_limit, second, second_limit, j)
}

/// The first link that dangles, where the records are taken in order and
/// the first link of a record before its second.
pub open spec fn first_dangling(
    first: Seq<Option<usize>>,
    first_limit: nat,
    second: Seq<Option<usize>>,
    second_limit: nat,
) -> Option<Dangling> {
    if exists|i: int| first_dangling_at(first, first_limit, second, second_limit, i) {
        let i = choose|i: int| first_dangling_at(first, first_limit, second, second_limit, i);
        if dangles(first[i], first_limit) {
            Some(Dangling::First(first[i].unwrap()))
        } else {
            Some(Dangling::Second(second[i].unwrap()))
        }
    } else {
        None
    }
}

/// Whether every index in `order` is below `limit`.
pub open spec fn bounded(order: Seq<usize>, limit: nat) -> bool {
    forall|i: int| 0 <= i < order.len() ==> order[i] < limit
}

/// One step of `collect`: a prefix that is one longer gives what the prefix
/// gave, with the next link noted.
pub proof fn lemma_collect_step(start: Seq<usize>, links: Seq<Option<usize>>, i: int)
    requires
        0 <= i < links.len(),
    ensures
        collect(start, links.take(i + 1)) == noted(collect(start, links.take(i)), links[i]),
{
    assert(links.take(i + 1).drop_last() =~= links.take(i));
}

/// `collect` keeps `start` in front.
pub proof fn lemma_collect_keeps(start: Seq<usize>, links: Seq<Option<usize>>)
    ensures
        start.is_prefix_of(collect(start, links)),
    decreases links.len(),
{
    if links.len() > 0 {
        lemma_collect_keeps(start, links.drop_last());
        let before = collect(start, links.drop_last());
        let after = collect(start, links);
        assert(before.is_prefix_of(after)) by {
            assert(after == noted(before, links.last()));
            assert(after.subrange(0, before.len() as int) =~= before);
        }
        assert(start =~= after.subrange(0, start.len() as int)) by {
            assert(start == before.subrange(0, start.len() as int));
            assert(before == after.subrange(0, before.len() as int));
        }
    } else {
        assert(start.subrange(0, start.len() as int) =~= start);
    }
}

/// What `start` holds, `collect` holds.
pub proof fn lemma_collect_keeps_items(start: Seq<usize>, links: Seq<Option<usize>>, x: usize)
    requires
        start.contains(x),
    ensures
        collect(start, links).contains(x),
{
    lemma_collect_keeps(start, links);
    let i = choose|i: int| 0 <= i < start.len() && start[i] == x;
    let all = collect(start, links);
    assert(all.subrange(0, start.len() as int)[i] == all[i]);
}

/// What a link names, `collect` holds.
pub proof fn lemma_collect_contains(start: Seq<usize>, links: Seq<Option<usize>>, i: int)
    requires
        0 <= i < links.len(),
        links[i] is Some,
    ensures
        collect(start, links).contains(links[i].unwrap()),
    decreases links.len(),
{
    let before = collect(start, links.drop_last());
    let x = links[i].unwrap();
    if i == links.len() - 1 {
        if !before.contains(x) {
            assert(before.push(x)[before.len() as int] == x);
        }
    } else {
        lemma_collect_contains(start, links.drop_last(), i);
        let j = choose|j: int| 0 <= j < before.len() && before[j] == x;
        match links.last() {
            Some(y) => {
                if !before.contains(y) {
                    assert(before.push(y)[j] == x);
                }
            },
            None => {},
        }
    }
}

/// What `collect` holds was in `start` or is named by a link.
pub proof fn lemma_collect_origin(start: Seq<usize>, links: Seq<Option<usize>>, x: usize)
    requires
        collect(start, links).contains(x),
    ensures
        start.contains(x) || links.contains(Some(x)),
    decreases links.len(),
{
    if links.len() > 0 {
        let before = collect(start, links.drop_last());
        let after = collect(start, links);
        let i = choose|i: int| 0 <= i < after.len() && after[i] == x;
        if links.last() == Some(x) {
            assert(links[links.len() - 1] == Some(x));
        } else {
            assert(before.contains(x)) by {
                if after != before {
                    assert(after == before.push(links.last().unwrap()));
                    assert(i < before.len());
                    assert(before[i] == x);
                }
            }
            lemma_collect_origin(start, links.drop_last(), x);
            if !start.contains(x) {
                let j = choose|j: int|
                    0 <= j < links.drop_last().len() && links.drop_last()[j] == Some(x);
                assert(links[j] == Some(x));
            }
        }
    }
}

/// `collect` holds no index twice, where `start` holds none twice.
pub proof fn lemma_collect_distinct(start: Seq<usize>, links: Seq<Option<usize>>)
    requires
        start.no_duplicates(),
    ensures
        collect(start, links).no_duplicates(),
    decreases links.len(),
{
    if links.len() > 0 {
        lemma_collect_distinct(start, links.drop_last());
    }
}

/// `collect` stays below `limit`, where `start` does and no link dangles.
pub proof fn lemma_collect_bounded(start: Seq<usize>, links: Seq<Option<usize>>, limit: nat)
    requires
        bounded(start, limit),
        forall|i: int| 0 <= i < links.len() ==> !dangles(links[i], limit),
    ensures
        bounded(collect(start, links), limit),
    decreases links.len(),
{
    if links.len() > 0 {
        lemma_collect_bounded(start, links.drop_last(), limit);
        assert(!dangles(links[links.len() - 1], limit));
    }
}

/// Where no link is the first to dangle, no link dangles.
pub proof fn lemma_none_dangling(
    first: Seq<Option<usize>>,
    first_limit: nat,
    second: Seq<Option<usize>>,
    second_limit: nat,
    i: int,
)
    requires
        first_dangling(first, first_limit, second, second_limit) is None,
    ensures
        !dangling_at(first, first_limit, second, second_limit, i),
    decreases i,
{
    if 0 <= i < first.len() {
        assert forall|j: int| 0 <= j < i implies !dangling_at(
            first,
            first_limit,
            second,
            second_limit,
            j,
        ) by {
            lemma_none_dangling(first, first_limit, second, second_limit, j);
        }
        if dangling_at(first, first_limit, second, second_limit, i) {
            assert(first_dangling_at(first, first_limit, second, second_limit, i));
        }
    }
}

/// Where the record at place `i` is the first with a link that dangles,
/// `first_dangling` is that link.
pub proof fn lemma_first_dangling(
    first: Seq<Option<usize>>,
    first_limit: nat,
    second: Seq<Option<usize>>,
    second_limit: nat,
    i: int,
)
    requires
        first_dangling_at(first, first_limit, second, second_limit, i),
    ensures
        first_dangling(first, first_limit, second, second_limit) == if dangles(
            first[i],
            first_limit,
        ) {
            Some(Dangling::First(first[i].unwrap()))
        } else {
            Some(Dangling::Second(second[i].unwrap()))
        },
{
    let chosen = choose|k: int| first_dangling_at(first, first_limit, second, second_limit, k);
    assert(first_dangling_at(first, first_limit, second, second_limit, chosen));
    if chosen < i {
        assert(!dangling_at(first, first_limit, second, second_limit, chosen));
    }
    if i < chosen {
        assert(!dangling_at(first, first_limit, second, second_limit, i));
    }
}

/// What a walk without a dangling link leaves behind: lists that stay below
/// their limits, and that hold what every link names.
pub proof fn lemma_walk(
    first_start: Seq<usize>,
    first: Seq<Option<usize>>,
    first_limit: nat,
    second_start: Seq<usize>,
    second: Seq<Option<usize>>,
    second_limit: nat,
)
    requires
        first.len() == second.len(),
        first_dangling(first, first_limit, second, second_limit) is None,
        bounded(first_start, first_limit),
        bounded(second_start, second_limit),
    ensures
        bounded(collect(first_start, first), first_limit),
        bounded(collect(second_start, second), second_limit),
        forall|i: int|
            0 <= i < first.len() ==> link_known(collect(first_start, first), #[trigger] first[i]),
        forall|i: int|
            0 <= i < second.len() ==> link_known(
                collect(second_start, second),
                #[trigger] second[i],
            ),
{
    assert forall|i: int| 0 <= i < first.len() implies !dangles(first[i], first_limit) && !dangles(
        second[i],
        second_limit,
    ) by {
        lemma_none_dangling(first, first_limit, second, second_limit, i);
    }
    lemma_collect_bounded(first_start, first, first_limit);
    lemma_collect_bounded(second_start, second, second_limit);
    assert forall|i: int| 0 <= i < first.len() implies link_known(
        collect(first_start, first),
        #[trigger] first[i],
    ) by {
        if first[i] is Some {
            lemma_collect_contains(first_start, first, i);
        }
    }
    assert forall|i: int| 0 <= i < second.len() implies link_known(
        collect(second_start, second),
        #[trigger] second[i],
    ) by {
        if second[i] is Some {
            lemma_collect_contains(second_start, second, i);
        }
    }
}

/// Appends `x` to `order` unless it is there.
pub fn note(order: &mut Vec<usize>, x: usize)
    ensures
        final(order)@ == push_unique(old(order)@, x),
{
    let is_x = |y: &usize| -> (b: bool)
        ensures
            b == (*y == x),
        { *y == x };
    order.push_if_no_match(x, is_x);
    proof {
        let before = old(order)@;
        if order@ == before && exists|i: int|
            0 <= i < before.len() && call_ensures(is_x, (&#[trigger] before[i],), true) {
            let i = choose|i: int|
                0 <= i < before.len() && call_ensures(is_x, (&#[trigger] before[i],), true);
            assert(before[i] == x);
        } else {
            assert forall|i: int| 0 <= i < before.len() implies before[i] != x by {
                assert(call_ensures(is_x, (&before[i],), false));
            }
        }
    }
}

/// Follows the links of the chosen records, in order, the first link of a
/// record before its second. Each index that a first link names is added to
/// `first` when it is first seen, and likewise for `second`. The walk ends
/// at the first link that dangles, and returns it.
pub(crate) fn follow<R: Record>(
    records: &Vec<R>,
    chosen: &Vec<usize>,
    first: &mut Vec<usize>,
    first_limit: usize,
    second: &mut Vec<usize>,
    second_limit: usize,
) -> (res: Option<Dangling>)
    requires
        forall|k: int| 0 <= k < chosen@.len() ==> chosen@[k] < records@.len(),
    ensures
        res == first_dangling(
            first_links(records@, chosen@),
            first_limit as nat,
            second_links(records@, chosen@),
            second_limit as nat,
        ),
        res is None ==> final(first)@ == collect(old(first)@, first_links(records@, chosen@)),
        res is None ==> final(second)@ == collect(old(second)@, second_links(records@, chosen@)),
{
    let ghost firsts = first_links(records@, chosen@);
    let ghost seconds = second_links(records@, chosen@);
    let mut i: usize = 0;
    while i < chosen.len()
        invariant
            i <= chosen@.len(),
            forall|k: int| 0 <= k < chosen@.len() ==> chosen@[k] < records@.len(),
            firsts == first_links(records@, chosen@),
            seconds == second_links(records@, chosen@),
            forall|j: int|
                0 <= j < i ==> !dangling_at(
                    firsts,
                    first_limit as nat,
                    seconds,
                    second_limit as nat,
                    j,
                ),
            first@ == collect(old(first)@, firsts.take(i as int)),
            second@ == collect(old(second)@, seconds.take(i as int)),
        decreases chosen@.len() - i,
    {
        let (first_link, second_link) = records[chosen[i]].links();
        assert(firsts[i as int] == first_link);
        assert(seconds[i as int] == second_link);
        proof {
            lemma_collect_step(old(first)@, firsts, i as int);
            lemma_collect_step(old(second)@, seconds, i as int);
        }
        match first_link {
            Some(x) => {
                if x >= first_limit {
                    proof {
                        lemma_first_dangling(
                            firsts,
                            first_limit as nat,
                            seconds,
                            second_limit as nat,
                            i as int,
                        );
                    }
                    return Some(Dangling::First(x));
                }
                note(first, x);
            },
            None => {},
        }
        match second_link {
            Some(y) => {
                if y >= second_limit {
                    proof {
                        lemma_first_dangling(
                            firsts,
                            first_limit as nat,
                            seconds,
                            second_limit as nat,
                            i as int,
                        );
                    }
                    return Some(Dangling::Second(y));
                }
                note(second, y);
            },
            None => {},
        }
        i = i + 1;
    }
    proof {
        assert(firsts.take(i as int) =~= firsts);
        assert(seconds.take(i as int) =~= seconds);
    }
    None
}

} // verus!
