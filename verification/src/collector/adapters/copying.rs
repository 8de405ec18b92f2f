//! `copying()`: collects copies of borrowed items.
use vstd::prelude::*;
use std::ops::ControlFlow;

use crate::collector::plumbing::{
    collects, consumer_hints, converts, finishes, gives_combiner, hints, splits, splits_at, Consumer, CollectSpec, SerialCollector,
    SerialCollectorBase, UnindexedConsumer,
};
use crate::collector::{
    commits, commits_unindexed, hands_out, hands_out_unindexed, par_finishes, par_hints, ParallelCollectorBase,
    UnindexedParallelCollectorBase,
};

verus! {

/// A parallel collector of borrowed items: the underlying collector collects
/// a copy of each.
#[derive(Debug, Clone)]
pub struct Copying<C> {
    collector: C,
}

/// The consumer of [`Copying`].
pub struct CopyingConsumer<K> {
    consumer: K,
}

/// The serial collector of a [`CopyingConsumer`].
pub struct CopyingSerial<S> {
    collector: S,
}

impl<C> Copying<C> {
    /// The underlying collector.
    pub closed spec fn inner(&self) -> C {
        self.collector
    }

    /// Lets `collector` collect a copy of each borrowed item.
    pub fn new(collector: C) -> (adapter: Self)
        ensures
            adapter.inner() == collector,
    {
        Copying { collector }
    }
}

impl<K> CopyingConsumer<K> {
    /// The underlying consumer.
    pub closed spec fn inner(&self) -> K {
        self.consumer
    }
}

impl<S> CopyingSerial<S> {
    /// The underlying serial collector.
    pub closed spec fn inner(&self) -> S {
        self.collector
    }
}

impl<S: SerialCollectorBase> SerialCollectorBase for CopyingSerial<S> {
    type Output = S::Output;

    /// The underlying collector's output.
    fn finish(self) -> (output: S::Output)
        ensures
            finishes(self.inner(), output),
    {
        self.collector.finish()
    }

    /// The underlying collector's hint.
    fn break_hint(&self) -> (cf: ControlFlow<()>)
        ensures
            hints(self.inner(), cf),
    {
        self.collector.break_hint()
    }
}

impl<'a, S: SerialCollector<T>, T: Copy> CollectSpec<&'a T> for CopyingSerial<S> {
    open spec fn collect_spec(before: Self, item: &'a T, after: Self, cf: ControlFlow<()>) -> bool {
        S::collect_spec(before.inner(), *item, after.inner(), cf)
    }
}

impl<'a, S: SerialCollector<T>, T: Copy> SerialCollector<&'a T> for CopyingSerial<S> {
    /// The underlying collector collects a copy of the item.
    fn collect(&mut self, item: &'a T) -> (cf: ControlFlow<()>)
        ensures
            exists|m: &mut S| *m == old(self).inner() && *final(m) == final(self).inner() && collects(m, *item, cf),
    {
        self.collector.collect(*item)
    }
}

impl<K: Consumer> Consumer for CopyingConsumer<K> {
    /// The underlying consumer splits at `index`.
    open spec fn split_at_spec(before: Self, index: usize, after: Self, split: (Self, Self::Combiner)) -> bool {
        K::split_at_spec(before.inner(), index, after.inner(), (split.0.inner(), split.1))
    }

    type Output = K::Output;

    type Combiner = K::Combiner;

    type Serial = CopyingSerial<K::Serial>;

    /// Wraps the underlying consumer's serial collector.
    fn into_collector(self) -> (serial: CopyingSerial<K::Serial>)
        ensures
            converts(self.inner(), serial.inner()),
    {
        CopyingSerial { collector: self.consumer.into_collector() }
    }

    /// Splits the underlying consumer.
    fn split_off_left_at(&mut self, index: usize) -> (split: (Self, K::Combiner))
        ensures
            exists|m: &mut K| *m == old(self).inner() && *final(m) == final(self).inner() && splits_at(m, index, (split.0.inner(), split.1)),
    {
        let (consumer, combiner) = self.consumer.split_off_left_at(index);
        (CopyingConsumer { consumer }, combiner)
    }

    /// The underlying consumer's hint.
    fn break_hint(&self) -> (cf: ControlFlow<()>)
        ensures
            consumer_hints(self.inner(), cf),
    {
        self.consumer.break_hint()
    }
}

impl<K: UnindexedConsumer> UnindexedConsumer for CopyingConsumer<K> {
    /// The underlying consumer splits.
    open spec fn split_spec(before: Self, after: Self, left: Self) -> bool {
        K::split_spec(before.inner(), after.inner(), left.inner())
    }

    /// Splits the underlying consumer.
    fn split_off_left(&mut self) -> (left: Self)
        ensures
            exists|m: &mut K| *m == old(self).inner() && *final(m) == final(self).inner() && splits(m, left.inner()),
    {
        CopyingConsumer { consumer: self.consumer.split_off_left() }
    }

    /// The underlying consumer's combiner.
    fn to_combiner(&self) -> (combiner: K::Combiner)
        ensures
            gives_combiner(self.inner(), combiner),
    {
        self.consumer.to_combiner()
    }
}

impl<C: ParallelCollectorBase> ParallelCollectorBase for Copying<C> {
    type Output = C::Output;

    type IndexedConsumer = CopyingConsumer<C::IndexedConsumer>;

    open spec fn parts_spec(before: Self, len: usize, after: Self, parts: (usize, CopyingConsumer<C::IndexedConsumer>)) -> bool {
        C::parts_spec(before.inner(), len, after.inner(), (parts.0, parts.1.inner()))
    }

    open spec fn commit_spec(before: Self, output: <C::IndexedConsumer as Consumer>::Output, after: Self, cf: ControlFlow<()>) -> bool {
        C::commit_spec(before.inner(), output, after.inner(), cf)
    }

    /// The underlying collector's final output.
    fn finish(self) -> (output: C::Output)
        ensures
            par_finishes(self.inner(), output),
    {
        self.collector.finish()
    }

    /// The underlying collector's hint.
    fn break_hint(&self) -> (cf: ControlFlow<()>)
        ensures
            par_hints(self.inner(), cf),
    {
        self.collector.break_hint()
    }

    /// The underlying collector's parts.
    fn parts(&mut self, len: usize) -> (parts: (usize, CopyingConsumer<C::IndexedConsumer>))
        ensures
            exists|m: &mut C| *m == old(self).inner() && *final(m) == final(self).inner() && hands_out(m, len, (parts.0, parts.1.inner())),
    {
        let (len, consumer) = self.collector.parts(len);
        (len, CopyingConsumer { consumer })
    }

    /// Commits to the underlying collector, and says what it says.
    fn commit(&mut self, output: <C::IndexedConsumer as Consumer>::Output) -> (cf: ControlFlow<()>)
        ensures
            exists|m: &mut C| *m == old(self).inner() && *final(m) == final(self).inner() && commits(m, output, cf),
    {
        self.collector.commit(output)
    }
}

impl<C: UnindexedParallelCollectorBase> UnindexedParallelCollectorBase for Copying<C> {
    type UnindexedParts = CopyingConsumer<C::UnindexedParts>;

    open spec fn parts_unindexed_spec(before: Self, after: Self, consumer: CopyingConsumer<C::UnindexedParts>) -> bool {
        C::parts_unindexed_spec(before.inner(), after.inner(), consumer.inner())
    }

    open spec fn commit_unindexed_spec(before: Self, output: <C::UnindexedParts as Consumer>::Output, after: Self, cf: ControlFlow<()>) -> bool {
        C::commit_unindexed_spec(before.inner(), output, after.inner(), cf)
    }

    /// Wraps the underlying collector's unindexed consumer.
    fn parts_unindexed(&mut self) -> (consumer: CopyingConsumer<C::UnindexedParts>)
        ensures
            exists|m: &mut C| *m == old(self).inner() && *final(m) == final(self).inner() && hands_out_unindexed(m, consumer.inner()),
    {
        CopyingConsumer { consumer: self.collector.parts_unindexed() }
    }

    /// Commits to the underlying collector, and says what it says.
    fn commit_unindexed(&mut self, output: <C::UnindexedParts as Consumer>::Output) -> (cf: ControlFlow<()>)
        ensures
            exists|m: &mut C| *m == old(self).inner() && *final(m) == final(self).inner() && commits_unindexed(m, output, cf),
    {
        self.collector.commit_unindexed(output)
    }
}

} // verus!
