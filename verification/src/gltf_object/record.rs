//! What the kinds of records have in common: references into other
//! collections, a tag that says where a copy came from, and a payload.

use vstd::prelude::*;

verus! {

/// A record of a scene. An extraction follows at most two of its references,
/// here called links: each is an index into another collection of the same
/// scene.
pub trait Record: Sized {
    /// The first link, where the record has one.
    spec fn first_link(&self) -> Option<usize>;

    /// The second link, where the record has one.
    spec fn second_link(&self) -> Option<usize>;

    /// The index that the record had in the scene it was extracted from.
    spec fn source_index(&self) -> Option<usize>;

    /// Whether the record holds what `source` holds, links and tag aside.
    spec fn same_payload(&self, source: &Self) -> bool;

    fn links(&self) -> (res: (Option<usize>, Option<usize>))
        ensures
            res.0 == self.first_link(),
            res.1 == self.second_link(),
    ;

    /// A copy of the record for another scene: tagged with `source_index`,
    /// and with the given links in place of its own. Links are replaced,
    /// not added: a link that the record lacks is not given to the copy,
    /// and a link for which none is given is kept.
    fn extract(&self, source_index: usize, first: Option<usize>, second: Option<usize>) -> (res:
        Self)
        ensures
            res.same_payload(self),
            res.source_index() == Some(source_index),
            res.first_link() == relinked(self.first_link(), first),
            res.second_link() == relinked(self.second_link(), second),
    ;
}

/// The link of a copy of a record whose link is `own`, where `given` is
/// offered in its place.
pub open spec fn relinked(own: Option<usize>, given: Option<usize>) -> Option<usize> {
    if own is Some && given is Some {
        given
    } else {
        own
    }
}

/// Replaces a link that is there by the one that is given.
pub fn relink(own: Option<usize>, given: Option<usize>) -> (res: Option<usize>)
    ensures
        res == relinked(own, given),
{
    if own.is_some() && given.is_some() {
        given
    } else {
        own
    }
}

/// Whether `link` names nothing or an item of `order`.
pub open spec fn link_known(order: Seq<usize>, link: Option<usize>) -> bool {
    link matches Some(x) ==> order.contains(x)
}

/// Whether `new_link` is `link` carried over to a collection that holds, at
/// each place, a copy of the source record whose index `order` has there.
pub open spec fn remapped(order: Seq<usize>, link: Option<usize>, new_link: Option<usize>) -> bool {
    match link {
        None => new_link is None,
        Some(x) => new_link matches Some(d) && d < order.len() && order[d as int] == x,
    }
}

/// Whether `copies` holds, in the order of `chosen`, a copy of each chosen
/// record of `records`: payload kept, tagged with its source index, and its
/// links carried over to the collections that `first_order` and
/// `second_order` describe.
pub open spec fn is_copied<R: Record>(
    copies: Seq<R>,
    records: Seq<R>,
    chosen: Seq<usize>,
    first_order: Seq<usize>,
    second_order: Seq<usize>,
) -> bool {
    &&& copies.len() == chosen.len()
    &&& forall|k: int|
        #![trigger copies[k]]
        0 <= k < chosen.len() ==> {
            let source = records[chosen[k] as int];
            &&& copies[k].same_payload(&source)
            &&& copies[k].source_index() == Some(chosen[k])
            &&& remapped(first_order, source.first_link(), copies[k].first_link())
            &&& remapped(second_order, source.second_link(), copies[k].second_link())
        }
}

/// The numbers below `n`, in order.
pub open spec fn count_up(n: nat) -> Seq<usize> {
    Seq::new(n, |i: int| i as usize)
}

/// The numbers below `n`, in order.
pub fn counted(n: usize) -> (res: Vec<usize>)
    ensures
        res@ == count_up(n as nat),
{
    let mut res: Vec<usize> = Vec::new();
    let mut i: usize = 0;
    while i < n
        invariant
            i <= n,
            res@ == count_up(i as nat),
        decreases n - i,
    {
        res.push(i);
        i = i + 1;
        assert(res@ =~= count_up(i as nat));
    }
    res
}

/// The first place of `x` in `order`.
pub fn position(order: &Vec<usize>, x: usize) -> (res: Option<usize>)
    ensures
        match res {
            Some(d) => d < order@.len() && order@[d as int] == x && forall|j: int|
                0 <= j < d ==> order@[j] != x,
            None => !order@.contains(x),
        },
{
    let mut i: usize = 0;
    while i < order.len()
        invariant
            i <= order@.len(),
            forall|j: int| 0 <= j < i ==> order@[j] != x,
        decreases order@.len() - i,
    {
        if order[i] == x {
            return Some(i);
        }
        i = i + 1;
    }
    None
}

/// Carries `link` over: the place in `order` of the index that it names.
/// A link that names nothing, or an index that `order` lacks, gives nothing.
pub fn remap(order: &Vec<usize>, link: Option<usize>) -> (res: Option<usize>)
    ensures
        link_known(order@, link) ==> remapped(order@, link, res),
        !link_known(order@, link) ==> res is None,
{
    match link {
        None => None,
        Some(x) => position(order, x),
    }
}

/// Copies the chosen records, in order, with their links carried over.
pub(crate) fn copy_records<R: Record>(
    records: &Vec<R>,
    chosen: &Vec<usize>,
    first_order: &Vec<usize>,
    second_order: &Vec<usize>,
) -> (copies: Vec<R>)
    requires
        forall|k: int| 0 <= k < chosen@.len() ==> chosen@[k] < records@.len(),
        forall|k: int|
            0 <= k < chosen@.len() ==> link_known(
                first_order@,
                (#[trigger] records@[chosen@[k] as int]).first_link(),
            ),
        forall|k: int|
            0 <= k < chosen@.len() ==> link_known(
                second_order@,
                (#[trigger] records@[chosen@[k] as int]).second_link(),
            ),
    ensures
        is_copied(copies@, records@, chosen@, first_order@, second_order@),
{
    let mut copies: Vec<R> = Vec::with_capacity(chosen.len());
    let mut k: usize = 0;
    while k < chosen.len()
        invariant
            k <= chosen@.len(),
            forall|j: int| 0 <= j < chosen@.len() ==> chosen@[j] < records@.len(),
            forall|j: int|
                0 <= j < chosen@.len() ==> link_known(
                    first_order@,
                    (#[trigger] records@[chosen@[j] as int]).first_link(),
                ),
            forall|j: int|
                0 <= j < chosen@.len() ==> link_known(
                    second_order@,
                    (#[trigger] records@[chosen@[j] as int]).second_link(),
                ),
            is_copied(copies@, records@, chosen@.take(k as int), first_order@, second_order@),
        decreases chosen@.len() - k,
    {
        let index = chosen[k];
        let source = &records[index];
        let (first, second) = source.links();
        let copy = source.extract(index, remap(first_order, first), remap(second_order, second));
        let ghost before = copies@;
        copies.push(copy);
        proof {
            let taken = chosen@.take(k as int + 1);
            assert forall|j: int| 0 <= j < taken.len() implies ({
                let source = records@[taken[j] as int];
                &&& (#[trigger] copies@[j]).same_payload(&source)
                &&& copies@[j].source_index() == Some(taken[j])
                &&& remapped(first_order@, source.first_link(), copies@[j].first_link())
                &&& remapped(second_order@, source.second_link(), copies@[j].second_link())
            }) by {
                if j < k {
                    assert(copies@[j] == before[j]);
                    assert(chosen@.take(k as int)[j] == taken[j]);
                }
            }
        }
        k = k + 1;
    }
    assert(chosen@.take(k as int) =~= chosen@);
    copies
}

} // verus!
