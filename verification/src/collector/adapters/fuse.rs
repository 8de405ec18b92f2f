//! `fuse()`: once the underlying collector has signaled a stop, it stays
//! stopped.
use vstd::prelude::*;
use std::ops::ControlFlow;

use crate::collector::plumbing::{
    consumer_hints, converts, finishes, gives_combiner, Consumer, CollectSpec, SerialCollector, SerialCollectorBase, UnindexedConsumer,
};
use crate::collector::{
    commits, commits_unindexed, hands_out, hands_out_unindexed, par_finishes, par_hints, ParallelCollectorBase,
    UnindexedParallelCollectorBase,
};

verus! {

/// A parallel collector that keeps reporting a stop once it has stopped.
#[derive(Debug)]
pub struct Fuse<C> {
    collector: C,
    break_hint: ControlFlow<()>,
}

/// The consumer of [`Fuse`]: caches whether it has stopped.
pub struct FuseConsumer<C> {
    consumer: C,
    break_hint: ControlFlow<()>,
}

/// The serial collector of a [`FuseConsumer`]: forwards items only until the
/// underlying collector stops.
pub struct FuseSerial<S> {
    collector: S,
    break_hint: ControlFlow<()>,
}

impl<C> Fuse<C> {
    /// The cached hint.
    pub closed spec fn hint(&self) -> ControlFlow<()> {
        self.break_hint
    }

    /// The underlying collector.
    pub closed spec fn inner(&self) -> C {
        self.collector
    }
}

impl<C: ParallelCollectorBase> Fuse<C> {
    /// Fuses `collector`, starting from its own hint.
    pub fn new(collector: C) -> (fuse: Self)
        ensures
            fuse.inner() == collector,
            par_hints(collector, fuse.hint()),
    {
        let break_hint = collector.break_hint();
        Fuse { collector, break_hint }
    }
}

impl<C> FuseConsumer<C> {
    /// The cached hint.
    pub closed spec fn hint(&self) -> ControlFlow<()> {
        self.break_hint
    }

    /// The underlying consumer.
    pub closed spec fn inner(&self) -> C {
        self.consumer
    }
}

impl<S> FuseSerial<S> {
    /// The cached hint.
    pub closed spec fn hint(&self) -> ControlFlow<()> {
        self.break_hint
    }

    /// The underlying serial collector.
    pub closed spec fn inner(&self) -> S {
        self.collector
    }
}

impl<S: SerialCollectorBase> SerialCollectorBase for FuseSerial<S> {
    type Output = S::Output;

    /// The underlying collector's output.
    fn finish(self) -> (output: S::Output)
        ensures
            finishes(self.inner(), output),
    {
        self.collector.finish()
    }

    /// The cached hint: a stop, once reported, sticks.
    fn break_hint(&self) -> (cf: ControlFlow<()>)
        ensures
            cf == self.hint(),
    {
        self.break_hint
    }
}

impl<S: SerialCollector<T>, T> CollectSpec<T> for FuseSerial<S> {
    /// A stopped collector leaves its underlying collector untouched and
    /// stays stopped; otherwise the underlying collector collects the item
    /// and what it says becomes the hint.
    open spec fn collect_spec(before: Self, item: T, after: Self, cf: ControlFlow<()>) -> bool {
        &&& cf == after.hint()
        &&& if before.hint() is Break {
            after == before
        } else {
            S::collect_spec(before.inner(), item, after.inner(), cf)
        }
    }
}

impl<S: SerialCollector<T>, T> SerialCollector<T> for FuseSerial<S> {
    /// Forwards the item only if not stopped; what the underlying collector
    /// reports becomes the hint.
    fn collect(&mut self, item: T) -> (cf: ControlFlow<()>)
        ensures
            old(self).hint() is Break ==> final(self).hint() is Break,
            cf == final(self).hint(),
    {
        if let ControlFlow::Continue(()) = self.break_hint {
            self.break_hint = self.collector.collect(item);
        }
        self.break_hint
    }
}

impl<C: Consumer> Consumer for FuseConsumer<C> {
    /// The underlying consumer splits at `index`; a stopped consumer splits
    /// into stopped ones, and otherwise each split takes its underlying
    /// consumer's hint.
    open spec fn split_at_spec(before: Self, index: usize, after: Self, split: (Self, Self::Combiner)) -> bool {
        &&& C::split_at_spec(before.inner(), index, after.inner(), (split.0.inner(), split.1))
        &&& before.hint() is Break ==> split.0.hint() is Break && after.hint() is Break
        &&& before.hint() is Continue ==> consumer_hints(split.0.inner(), split.0.hint()) && consumer_hints(after.inner(), after.hint())
    }

    type Output = C::Output;

    type Combiner = C::Combiner;

    type Serial = FuseSerial<C::Serial>;

    /// A serial collector starting from the cached hint.
    fn into_collector(self) -> (serial: FuseSerial<C::Serial>)
        ensures
            serial.hint() == self.hint(),
            converts(self.inner(), serial.inner()),
    {
        FuseSerial { collector: self.consumer.into_collector(), break_hint: self.break_hint }
    }

    /// A stopped consumer splits into stopped consumers; otherwise both
    /// splits re-assess their hints.
    fn split_off_left_at(&mut self, index: usize) -> (split: (Self, C::Combiner))
        ensures
            old(self).hint() is Break ==> split.0.hint() is Break && final(self).hint() is Break,
    {
        let (consumer, combiner) = self.consumer.split_off_left_at(index);
        let break_hint = match self.break_hint {
            ControlFlow::Break(()) => ControlFlow::Break(()),
            ControlFlow::Continue(()) => {
                self.break_hint = self.consumer.break_hint();
                consumer.break_hint()
            },
        };
        (FuseConsumer { consumer, break_hint }, combiner)
    }

    fn break_hint(&self) -> (cf: ControlFlow<()>)
        ensures
            self.hint() is Break ==> cf is Break,
    {
        match self.break_hint {
            ControlFlow::Break(()) => ControlFlow::Break(()),
            ControlFlow::Continue(()) => self.consumer.break_hint(),
        }
    }
}

impl<C: UnindexedConsumer> UnindexedConsumer for FuseConsumer<C> {
    /// The underlying consumer splits; a stopped consumer splits into
    /// stopped ones, and otherwise each split takes its underlying consumer's
    /// hint.
    open spec fn split_spec(before: Self, after: Self, left: Self) -> bool {
        &&& C::split_spec(before.inner(), after.inner(), left.inner())
        &&& before.hint() is Break ==> left.hint() is Break && after.hint() is Break
        &&& before.hint() is Continue ==> consumer_hints(left.inner(), left.hint()) && consumer_hints(after.inner(), after.hint())
    }

    fn split_off_left(&mut self) -> (left: Self)
        ensures
            old(self).hint() is Break ==> left.hint() is Break && final(self).hint() is Break,
    {
        let consumer = self.consumer.split_off_left();
        let break_hint = match self.break_hint {
            ControlFlow::Break(()) => ControlFlow::Break(()),
            ControlFlow::Continue(()) => {
                self.break_hint = self.consumer.break_hint();
                consumer.break_hint()
            },
        };
        FuseConsumer { consumer, break_hint }
    }

    /// The underlying consumer's combiner.
    fn to_combiner(&self) -> (combiner: C::Combiner)
        ensures
            gives_combiner(self.inner(), combiner),
    {
        self.consumer.to_combiner()
    }
}

impl<C: ParallelCollectorBase> ParallelCollectorBase for Fuse<C> {
    type Output = C::Output;

    type IndexedConsumer = FuseConsumer<C::IndexedConsumer>;

    /// The underlying collector's parts; the consumer and this collector
    /// keep the hint.
    open spec fn parts_spec(before: Self, len: usize, after: Self, parts: (usize, FuseConsumer<C::IndexedConsumer>)) -> bool {
        &&& C::parts_spec(before.inner(), len, after.inner(), (parts.0, parts.1.inner()))
        &&& after.hint() == before.hint() && parts.1.hint() == before.hint()
    }

    /// The underlying collector commits the output; a stop it says sticks,
    /// and the hint is what is said.
    open spec fn commit_spec(before: Self, output: <C::IndexedConsumer as Consumer>::Output, after: Self, cf: ControlFlow<()>) -> bool {
        &&& cf == after.hint()
        &&& exists|inner_cf: ControlFlow<()>| #[trigger] C::commit_spec(before.inner(), output, after.inner(), inner_cf)
            && (after.hint() is Break <==> (before.hint() is Break || inner_cf is Break))
    }

    /// The underlying collector's final output.
    fn finish(self) -> (output: C::Output)
        ensures
            par_finishes(self.inner(), output),
    {
        self.collector.finish()
    }

    fn break_hint(&self) -> (cf: ControlFlow<()>)
        ensures
            cf == self.hint(),
    {
        self.break_hint
    }

    fn parts(&mut self, len: usize) -> (parts: (usize, FuseConsumer<C::IndexedConsumer>))
        ensures
            final(self).hint() == old(self).hint(),
            parts.1.hint() == old(self).hint(),
            exists|m: &mut C| *m == old(self).inner() && *final(m) == final(self).inner() && hands_out(m, len, (parts.0, parts.1.inner())),
    {
        let (actual_len, consumer) = self.collector.parts(len);
        (actual_len, FuseConsumer { consumer, break_hint: self.break_hint })
    }

    /// Commits to the underlying collector; a stop it reports sticks.
    fn commit(&mut self, output: <C::IndexedConsumer as Consumer>::Output) -> (cf: ControlFlow<()>)
        ensures
            old(self).hint() is Break ==> final(self).hint() is Break,
            cf == final(self).hint(),
            exists|m: &mut C, inner_cf: ControlFlow<()>| *m == old(self).inner() && *final(m) == final(self).inner()
                && commits(m, output, inner_cf)
                && (final(self).hint() is Break <==> (old(self).hint() is Break || inner_cf is Break)),
    {
        let cf = self.collector.commit(output);
        match cf {
            ControlFlow::Break(()) => { self.break_hint = cf; },
            ControlFlow::Continue(()) => {},
        }
        assert(C::commit_spec(old(self).inner(), output, self.inner(), cf));
        self.break_hint
    }
}

impl<C: UnindexedParallelCollectorBase> UnindexedParallelCollectorBase for Fuse<C> {
    type UnindexedParts = FuseConsumer<C::UnindexedParts>;

    open spec fn parts_unindexed_spec(before: Self, after: Self, consumer: FuseConsumer<C::UnindexedParts>) -> bool {
        &&& C::parts_unindexed_spec(before.inner(), after.inner(), consumer.inner())
        &&& after.hint() == before.hint() && consumer.hint() == before.hint()
    }

    open spec fn commit_unindexed_spec(before: Self, output: <C::UnindexedParts as Consumer>::Output, after: Self, cf: ControlFlow<()>) -> bool {
        &&& cf == after.hint()
        &&& exists|inner_cf: ControlFlow<()>| #[trigger] C::commit_unindexed_spec(before.inner(), output, after.inner(), inner_cf)
            && (after.hint() is Break <==> (before.hint() is Break || inner_cf is Break))
    }

    fn parts_unindexed(&mut self) -> (consumer: FuseConsumer<C::UnindexedParts>)
        ensures
            final(self).hint() == old(self).hint(),
            consumer.hint() == old(self).hint(),
            exists|m: &mut C| *m == old(self).inner() && *final(m) == final(self).inner() && hands_out_unindexed(m, consumer.inner()),
    {
        FuseConsumer { consumer: self.collector.parts_unindexed(), break_hint: self.break_hint }
    }

    fn commit_unindexed(&mut self, output: <C::UnindexedParts as Consumer>::Output) -> (cf: ControlFlow<()>)
        ensures
            old(self).hint() is Break ==> final(self).hint() is Break,
            cf == final(self).hint(),
            exists|m: &mut C, inner_cf: ControlFlow<()>| *m == old(self).inner() && *final(m) == final(self).inner()
                && commits_unindexed(m, output, inner_cf)
                && (final(self).hint() is Break <==> (old(self).hint() is Break || inner_cf is Break)),
    {
        let cf = self.collector.commit_unindexed(output);
        match cf {
            ControlFlow::Break(()) => { self.break_hint = cf; },
            ControlFlow::Continue(()) => {},
        }
        assert(C::commit_unindexed_spec(old(self).inner(), output, self.inner(), cf));
        self.break_hint
    }
}

} // verus!
