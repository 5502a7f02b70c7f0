//! Conditional insertion into a vector.

use vstd::prelude::*;

verus! {

pub trait VecExt<T> {
    /// The items of the collection, in order.
    spec fn items(&self) -> Seq<T>;

    /// Appends `item` unless `predicate` holds of an item that is already
    /// there. The items are tested in order, up to the first match.
    fn push_if_no_match<F>(&mut self, item: T, predicate: F) where F: Fn(&T) -> bool
        requires
            forall|i: int|
                0 <= i < old(self).items().len() ==> call_requires(
                    predicate,
                    (&#[trigger] old(self).items()[i],),
                ),
        ensures
            ({
                let before = old(self).items();
                let after = final(self).items();
                ||| after == before && exists|i: int|
                    0 <= i < before.len() && call_ensures(predicate, (&#[trigger] before[i],), true)
                ||| after == before.push(item) && forall|i: int|
                    0 <= i < before.len() ==> call_ensures(
                        predicate,
                        (&#[trigger] before[i],),
                        false,
                    )
            }),
    ;
}

impl<T> VecExt<T> for Vec<T> {
    open spec fn items(&self) -> Seq<T> {
        self@
    }

    fn push_if_no_match<F>(&mut self, item: T, predicate: F) where F: Fn(&T) -> bool {
        proof {
            assert forall|j: int| 0 <= j < self@.len() implies call_requires(
                predicate,
                (&#[trigger] self@[j],),
            ) by {
                assert(self.items()[j] == self@[j]);
            }
        }
        let mut i: usize = 0;
        while i < self.len()
            invariant
                i <= self.len(),
                self@ == old(self)@,
                forall|j: int|
                    0 <= j < self@.len() ==> call_requires(predicate, (&#[trigger] self@[j],)),
                forall|j: int|
                    0 <= j < i ==> call_ensures(predicate, (&#[trigger] self@[j],), false),
            decreases self.len() - i,
        {
            if predicate(&self[i]) {
                return ;
            }
            i = i + 1;
        }
        self.push(item);
    }
}

} // verus!
