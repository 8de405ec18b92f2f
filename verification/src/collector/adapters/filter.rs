//! `filter()`: collects only the items a predicate accepts. Since items are
//! dropped anywhere, both of its paths use the unindexed path of the
//! underlying collector.
use vstd::prelude::*;
use std::ops::ControlFlow;
use std::sync::Arc;

use super::shared::share;
use crate::collector::plumbing::{
    collects, consumer_hints, converts, finishes, gives_combiner, hints, splits, Consumer, CollectSpec, SerialCollector,
    SerialCollectorBase, UnindexedConsumer,
};
use crate::collector::{
    commits_unindexed, hands_out_unindexed, par_finishes, par_hints, ParallelCollectorBase,
    UnindexedParallelCollectorBase,
};

verus! {

/// A predicate over items that can be asked of any item of type `T`.
#[verifier::reject_recursive_types(T)]
pub struct ItemPred<T, P: Fn(&T) -> bool> {
    pred: P,
    _item: std::marker::PhantomData<T>,
}

impl<T, P: Fn(&T) -> bool> ItemPred<T, P> {
    /// The predicate can be asked of any item.
    #[verifier::type_invariant]
    spec fn accepts_any_item(self) -> bool {
        forall|item: &T| #[trigger] self.pred.requires((item,))
    }

    /// The predicate.
    pub closed spec fn pred(&self) -> P {
        self.pred
    }

    /// Wraps `pred`, which can be asked of any item.
    pub fn new(pred: P) -> (item_pred: Self)
        requires
            forall|item: &T| #[trigger] pred.requires((item,)),
        ensures
            item_pred.pred() == pred,
    {
        ItemPred { pred, _item: std::marker::PhantomData }
    }

    /// Asks the predicate of `item`.
    pub fn holds(&self, item: &T) -> (accepted: bool)
        ensures
            self.pred().ensures((item,), accepted),
    {
        proof { use_type_invariant(self); }
        (self.pred)(item)
    }
}

/// A parallel collector that collects only the items a predicate accepts.
/// All splits share the predicate.
#[verifier::reject_recursive_types(T)]
pub struct FilterBase<C, T, P: Fn(&T) -> bool> {
    collector: C,
    pred: Arc<ItemPred<T, P>>,
}

/// The consumer of [`FilterBase`].
#[verifier::reject_recursive_types(T)]
pub struct FilterConsumer<K, T, P: Fn(&T) -> bool> {
    consumer: K,
    pred: Arc<ItemPred<T, P>>,
}

/// The serial collector of a [`FilterConsumer`].
#[verifier::reject_recursive_types(T)]
pub struct FilterSerial<S, T, P: Fn(&T) -> bool> {
    collector: S,
    pred: Arc<ItemPred<T, P>>,
}

impl<C, T, P: Fn(&T) -> bool> FilterBase<C, T, P> {
    /// The underlying collector.
    pub closed spec fn inner(&self) -> C {
        self.collector
    }

    /// The predicate.
    pub closed spec fn pred(&self) -> P {
        self.pred.pred()
    }

    /// Collects into `collector` only the items `pred` accepts.
    pub fn new(collector: C, pred: P) -> (filter: Self)
        requires
            forall|item: &T| #[trigger] pred.requires((item,)),
        ensures
            filter.inner() == collector,
            filter.pred() == pred,
    {
        FilterBase { collector, pred: Arc::new(ItemPred::new(pred)) }
    }
}

impl<K, T, P: Fn(&T) -> bool> FilterConsumer<K, T, P> {
    /// The predicate.
    pub closed spec fn pred(&self) -> P {
        self.pred.pred()
    }

    /// The underlying consumer.
    pub closed spec fn inner(&self) -> K {
        self.consumer
    }
}

impl<S, T, P: Fn(&T) -> bool> FilterSerial<S, T, P> {
    /// The predicate.
    pub closed spec fn pred(&self) -> P {
        self.pred.pred()
    }

    /// The underlying serial collector.
    pub closed spec fn inner(&self) -> S {
        self.collector
    }
}

impl<S: SerialCollectorBase, T, P: Fn(&T) -> bool> SerialCollectorBase for FilterSerial<S, T, P> {
    type Output = S::Output;

    /// The underlying collector's output.
    fn finish(self) -> (output: S::Output)
        ensures
            finishes(self.inner(), output),
    {
        self.collector.finish()
    }

    /// The underlying collector's hint.
    fn break_hint(&self) -> (cf: ControlFlow<()>)
        ensures
            hints(self.inner(), cf),
    {
        self.collector.break_hint()
    }
}

impl<S: SerialCollector<T>, T, P: Fn(&T) -> bool> CollectSpec<T> for FilterSerial<S, T, P> {
    open spec fn collect_spec(before: Self, item: T, after: Self, cf: ControlFlow<()>) -> bool {
        &&& after.pred() == before.pred()
        &&& exists|accepted: bool| #[trigger] before.pred().ensures((&item,), accepted) && if accepted {
            S::collect_spec(before.inner(), item, after.inner(), cf)
        } else {
            after.inner() == before.inner() && hints(before.inner(), cf)
        }
    }
}

impl<S: SerialCollector<T>, T, P: Fn(&T) -> bool> SerialCollector<T> for FilterSerial<S, T, P> {
    /// Forwards the item only if the predicate accepts it; otherwise
    /// reports the underlying collector's hint.
    fn collect(&mut self, item: T) -> (cf: ControlFlow<()>)
        ensures
            final(self).pred() == old(self).pred(),
            final(self).inner() == old(self).inner() || old(self).pred().ensures((&item,), true),
            exists|accepted: bool| #[trigger] old(self).pred().ensures((&item,), accepted) && (accepted ==> exists|m: &mut S| *m == old(self).inner() && *final(m) == final(self).inner() && collects(m, item, cf)) && (!accepted ==> final(self).inner() == old(self).inner() && hints(old(self).inner(), cf)),
    {
        let accepted = self.pred.holds(&item);
        if accepted {
            self.collector.collect(item)
        } else {
            let cf = self.collector.break_hint();
            assert(old(self).pred().ensures((&item,), accepted));
            cf
        }
    }
}

impl<K: UnindexedConsumer, T, P: Fn(&T) -> bool> Consumer for FilterConsumer<K, T, P> {
    /// The index is ignored: the underlying consumer splits freely, and the combiner is the right split's.
    open spec fn split_at_spec(before: Self, index: usize, after: Self, split: (Self, Self::Combiner)) -> bool {
        K::split_spec(before.inner(), after.inner(), split.0.inner()) && gives_combiner(after.inner(), split.1) && split.0.pred() == before.pred() && after.pred() == before.pred()
    }

    type Output = K::Output;

    type Combiner = K::Combiner;

    type Serial = FilterSerial<K::Serial, T, P>;

    fn into_collector(self) -> (serial: FilterSerial<K::Serial, T, P>)
        ensures
            serial.pred() == self.pred(),
            converts(self.inner(), serial.inner()),
    {
        FilterSerial { collector: self.consumer.into_collector(), pred: self.pred }
    }

    /// Items may be dropped anywhere, so the index is ignored and the split
    /// is an unindexed one.
    fn split_off_left_at(&mut self, index: usize) -> (split: (Self, K::Combiner))
        ensures
            split.0.pred() == old(self).pred(),
            final(self).pred() == old(self).pred(),
    {
        let left = self.split_off_left();
        (left, self.to_combiner())
    }

    /// The underlying consumer's hint.
    fn break_hint(&self) -> (cf: ControlFlow<()>)
        ensures
            consumer_hints(self.inner(), cf),
    {
        self.consumer.break_hint()
    }
}

impl<K: UnindexedConsumer, T, P: Fn(&T) -> bool> UnindexedConsumer for FilterConsumer<K, T, P> {
    /// The underlying consumer splits; both share the predicate.
    open spec fn split_spec(before: Self, after: Self, left: Self) -> bool {
        K::split_spec(before.inner(), after.inner(), left.inner()) && left.pred() == before.pred() && after.pred() == before.pred()
    }

    /// Both splits share the predicate.
    fn split_off_left(&mut self) -> (left: Self)
        ensures
            left.pred() == old(self).pred(),
            final(self).pred() == old(self).pred(),
            exists|m: &mut K| *m == old(self).inner() && *final(m) == final(self).inner() && splits(m, left.inner()),
    {
        FilterConsumer { consumer: self.consumer.split_off_left(), pred: share(&self.pred) }
    }

    /// The underlying consumer's combiner.
    fn to_combiner(&self) -> (combiner: K::Combiner)
        ensures
            gives_combiner(self.inner(), combiner),
    {
        self.consumer.to_combiner()
    }
}

impl<C: UnindexedParallelCollectorBase, T, P: Fn(&T) -> bool> ParallelCollectorBase for FilterBase<C, T, P> {
    type Output = C::Output;

    type IndexedConsumer = FilterConsumer<C::UnindexedParts, T, P>;

    /// Parts for all `len` items: a consumer of the underlying unindexed
    /// path, sharing this collector's pred.
    open spec fn parts_spec(before: Self, len: usize, after: Self, parts: (usize, FilterConsumer<C::UnindexedParts, T, P>)) -> bool {
        &&& parts.0 == len
        &&& C::parts_unindexed_spec(before.inner(), after.inner(), parts.1.inner())
        &&& parts.1.pred() == before.pred() && after.pred() == before.pred()
    }

    open spec fn commit_spec(before: Self, output: <C::UnindexedParts as Consumer>::Output, after: Self, cf: ControlFlow<()>) -> bool {
        &&& after.pred() == before.pred()
        &&& C::commit_unindexed_spec(before.inner(), output, after.inner(), cf)
    }

    /// The underlying collector's final output.
    fn finish(self) -> (output: C::Output)
        ensures
            par_finishes(self.inner(), output),
    {
        self.collector.finish()
    }

    /// The underlying collector's hint.
    fn break_hint(&self) -> (cf: ControlFlow<()>)
        ensures
            par_hints(self.inner(), cf),
    {
        self.collector.break_hint()
    }

    /// Affords all `len` items: rejected items are just dropped.
    fn parts(&mut self, len: usize) -> (parts: (usize, FilterConsumer<C::UnindexedParts, T, P>))
        ensures
            parts.0 == len,
            parts.1.pred() == old(self).pred(),
            final(self).pred() == old(self).pred(),
            exists|m: &mut C| *m == old(self).inner() && *final(m) == final(self).inner() && hands_out_unindexed(m, parts.1.inner()),
    {
        let consumer = self.collector.parts_unindexed();
        (len, FilterConsumer { consumer, pred: share(&self.pred) })
    }

    /// Commits to the underlying collector's unindexed path, and says what it
    /// says.
    fn commit(&mut self, output: <C::UnindexedParts as Consumer>::Output) -> (cf: ControlFlow<()>)
        ensures
            final(self).pred() == old(self).pred(),
            exists|m: &mut C| *m == old(self).inner() && *final(m) == final(self).inner() && commits_unindexed(m, output, cf),
    {
        self.collector.commit_unindexed(output)
    }
}

impl<C: UnindexedParallelCollectorBase, T, P: Fn(&T) -> bool> UnindexedParallelCollectorBase for FilterBase<C, T, P> {
    type UnindexedParts = FilterConsumer<C::UnindexedParts, T, P>;

    open spec fn parts_unindexed_spec(before: Self, after: Self, consumer: FilterConsumer<C::UnindexedParts, T, P>) -> bool {
        &&& C::parts_unindexed_spec(before.inner(), after.inner(), consumer.inner())
        &&& consumer.pred() == before.pred() && after.pred() == before.pred()
    }

    open spec fn commit_unindexed_spec(before: Self, output: <C::UnindexedParts as Consumer>::Output, after: Self, cf: ControlFlow<()>) -> bool {
        &&& after.pred() == before.pred()
        &&& C::commit_unindexed_spec(before.inner(), output, after.inner(), cf)
    }

    fn parts_unindexed(&mut self) -> (consumer: FilterConsumer<C::UnindexedParts, T, P>)
        ensures
            consumer.pred() == old(self).pred(),
            final(self).pred() == old(self).pred(),
            exists|m: &mut C| *m == old(self).inner() && *final(m) == final(self).inner() && hands_out_unindexed(m, consumer.inner()),
    {
        FilterConsumer { consumer: self.collector.parts_unindexed(), pred: share(&self.pred) }
    }

    /// Commits to the underlying collector's unindexed path, and says what it
    /// says.
    fn commit_unindexed(&mut self, output: <C::UnindexedParts as Consumer>::Output) -> (cf: ControlFlow<()>)
        ensures
            final(self).pred() == old(self).pred(),
            exists|m: &mut C| *m == old(self).inner() && *final(m) == final(self).inner() && commits_unindexed(m, output, cf),
    {
        self.collector.commit_unindexed(output)
    }
}

} // verus!
