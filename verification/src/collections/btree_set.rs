//! A parallel collector that inserts the collected items into a `BTreeSet`.
use vstd::prelude::*;
use std::collections::BTreeSet;
use std::ops::ControlFlow;

use super::linked_list::ListConsumer;
use crate::collector::{IntoParallelCollectorBase, ParallelCollectorBase, UnindexedParallelCollectorBase};
use crate::order::{keys_ordered, reversed};

verus! {

/// Whatever index a batch is split at, inserting the items of both splits
/// inserts the items of the batch: the same as collecting it serially.
pub proof fn lemma_split_inserts_batch<T>(set: Set<T>, batch: Seq<T>, at: int)
    requires
        0 <= at <= batch.len(),
    ensures
        set.union((batch.take(at) + batch.skip(at)).to_set()) == set.union(batch.to_set()),
{
    assert(batch.take(at) + batch.skip(at) =~= batch);
}

/// A parallel collector that inserts the collected items into a set. Each
/// serial part collects its items into a list; committing inserts them.
pub struct IntoParCollector<T> {
    set: BTreeSet<T>,
}

/// Inserts all `items` into `set`.
fn insert_all<T: Ord>(set: &mut BTreeSet<T>, items: Vec<T>)
    ensures
        keys_ordered::<T>() ==> final(set)@ == old(set)@.union(items@.to_set()),
{
    let ghost start = set@;
    let ghost orig = items@;
    let n = items.len();
    let mut rev = reversed(items);
    while rev.len() > 0
        invariant
            rev@.len() <= n,
            n == orig.len(),
            forall|i: int| 0 <= i < rev@.len() ==> #[trigger] rev@[i] == orig[n - 1 - i],
            keys_ordered::<T>() ==> set@ == start.union(orig.take(n - rev@.len()).to_set()),
        decreases rev.len(),
    {
        let ghost k = n - rev@.len();
        let item = rev.pop().unwrap();
        proof {
            assert(orig.take(k + 1) =~= orig.take(k).push(orig[k]));
            orig.take(k).lemma_push_to_set_commute(orig[k]);
            assert(start.union(orig.take(k).to_set().insert(orig[k])) =~= start.union(orig.take(k).to_set()).insert(orig[k]));
        }
        let _ = set.insert(item);
    }
    assert(orig.take(n as int) =~= orig);
}

impl<T: Ord> IntoParCollector<T> {
    /// The items of the set so far.
    pub closed spec fn items(&self) -> Set<T> {
        self.set@
    }

    /// A parallel collector inserting into `set`.
    pub fn new(set: BTreeSet<T>) -> (collector: Self)
        ensures
            collector.items() == set@,
    {
        IntoParCollector { set }
    }
}

impl<T: Ord> ParallelCollectorBase for IntoParCollector<T> {
    type Output = BTreeSet<T>;

    type IndexedConsumer = ListConsumer<T>;

    open spec fn parts_spec(before: Self, len: usize, after: Self, parts: (usize, ListConsumer<T>)) -> bool {
        parts.0 == len && after.items() == before.items()
    }

    open spec fn commit_spec(before: Self, output: Vec<T>, after: Self, cf: ControlFlow<()>) -> bool {
        &&& keys_ordered::<T>() ==> after.items() == before.items().union(output@.to_set())
        &&& cf is Continue
    }

    /// The set.
    fn finish(self) -> (set: BTreeSet<T>)
        ensures
            set@ == self.items(),
    {
        self.set
    }

    fn break_hint(&self) -> (cf: ControlFlow<()>)
        ensures
            cf is Continue,
    {
        ControlFlow::Continue(())
    }

    /// Affords all `len` items: a consumer collecting them into lists.
    fn parts(&mut self, len: usize) -> (parts: (usize, ListConsumer<T>))
        ensures
            parts.0 == len,
            final(self).items() == old(self).items(),
    {
        (len, ListConsumer::new())
    }

    /// Inserts the items of the list into the set; it never stops.
    fn commit(&mut self, output: Vec<T>) -> (cf: ControlFlow<()>)
        ensures
            keys_ordered::<T>() ==> final(self).items() == old(self).items().union(output@.to_set()),
            cf is Continue,
    {
        insert_all(&mut self.set, output);
        ControlFlow::Continue(())
    }
}

impl<T: Ord> UnindexedParallelCollectorBase for IntoParCollector<T> {
    type UnindexedParts = ListConsumer<T>;

    open spec fn parts_unindexed_spec(before: Self, after: Self, consumer: ListConsumer<T>) -> bool {
        after.items() == before.items()
    }

    open spec fn commit_unindexed_spec(before: Self, output: Vec<T>, after: Self, cf: ControlFlow<()>) -> bool {
        &&& keys_ordered::<T>() ==> after.items() == before.items().union(output@.to_set())
        &&& cf is Continue
    }

    fn parts_unindexed(&mut self) -> (consumer: ListConsumer<T>)
        ensures
            final(self).items() == old(self).items(),
    {
        ListConsumer::new()
    }

    /// Inserts the items of the list into the set; it never stops.
    fn commit_unindexed(&mut self, output: Vec<T>) -> (cf: ControlFlow<()>)
        ensures
            keys_ordered::<T>() ==> final(self).items() == old(self).items().union(output@.to_set()),
            cf is Continue,
    {
        insert_all(&mut self.set, output);
        ControlFlow::Continue(())
    }
}

impl<T: Ord> IntoParallelCollectorBase for BTreeSet<T> {
    type Output = BTreeSet<T>;

    type IntoParCollector = IntoParCollector<T>;

    fn into_par_collector(self) -> (collector: IntoParCollector<T>)
        ensures
            collector.items() == self@,
    {
        IntoParCollector::new(self)
    }
}

} // verus!
