//! `filter_with()`: collects only the items a predicate accepts, where the
//! predicate also gets local states of each serial part. Both of its paths
//! use the unindexed path of the underlying collector.
use vstd::prelude::*;
use std::ops::ControlFlow;
use std::sync::Arc;

use super::shared::share;
use crate::collector::plumbing::{
    consumer_hints, converts, finishes, gives_combiner, hints, CollectSpec, Consumer, SerialCollector,
    SerialCollectorBase, UnindexedConsumer,
};
use crate::collector::{par_finishes, par_hints, ParallelCollectorBase, UnindexedParallelCollectorBase};

verus! {

/// The functions of a filter with local states: one makes the second local
/// state of a serial part, the other says, with both local states, whether
/// an item is collected. Both can be called on any states and item.
#[verifier::reject_recursive_types(L1)]
#[verifier::reject_recursive_types(L2)]
#[verifier::reject_recursive_types(T)]
pub struct PredWithFns<L1, L2, T, FL2: Fn() -> L2, P: Fn(&mut L1, &mut L2, &T) -> bool> {
    local2_f: FL2,
    pred: P,
    _local1: std::marker::PhantomData<L1>,
    _local2: std::marker::PhantomData<L2>,
    _item: std::marker::PhantomData<T>,
}

impl<L1, L2, T, FL2: Fn() -> L2, P: Fn(&mut L1, &mut L2, &T) -> bool> PredWithFns<L1, L2, T, FL2, P> {
    /// Both functions can be called on anything.
    #[verifier::type_invariant]
    spec fn accept_anything(self) -> bool {
        &&& self.local2_f.requires(())
        &&& forall|local1: &mut L1, local2: &mut L2, item: &T| #[trigger] self.pred.requires((local1, local2, item))
    }

    /// The function making second local states.
    pub closed spec fn local2_f(&self) -> FL2 {
        self.local2_f
    }

    /// The predicate.
    pub closed spec fn pred(&self) -> P {
        self.pred
    }

    /// Wraps `local2_f` and `pred`, which can be called on anything.
    pub fn new(local2_f: FL2, pred: P) -> (fns: Self)
        requires
            local2_f.requires(()),
            forall|local1: &mut L1, local2: &mut L2, item: &T| #[trigger] pred.requires((local1, local2, item)),
        ensures
            fns.local2_f() == local2_f,
            fns.pred() == pred,
    {
        PredWithFns {
            local2_f,
            pred,
            _local1: std::marker::PhantomData,
            _local2: std::marker::PhantomData,
            _item: std::marker::PhantomData,
        }
    }

    /// A new second local state.
    pub fn make_local2(&self) -> (local2: L2)
        ensures
            self.local2_f().ensures((), local2),
    {
        proof { use_type_invariant(self); }
        (self.local2_f)()
    }

    /// Asks the predicate of `item`, with both local states.
    pub fn holds(&self, local1: &mut L1, local2: &mut L2, item: &T) -> (accepted: bool)
        ensures
            exists|m1: &mut L1, m2: &mut L2| *m1 == *old(local1) && *final(m1) == *final(local1)
                && *m2 == *old(local2) && *final(m2) == *final(local2)
                && #[trigger] self.pred().ensures((m1, m2, item), accepted),
    {
        proof { use_type_invariant(self); }
        assert(self.pred() == self.pred);
        (self.pred)(local1, local2, item)
    }
}

/// A parallel collector that collects only the items a predicate accepts,
/// asked with local states of each serial part: every serial part starts
/// from a clone of the first local state and a new second one.
#[verifier::reject_recursive_types(L1)]
#[verifier::reject_recursive_types(L2)]
#[verifier::reject_recursive_types(T)]
pub struct FilterWith<C, L1, L2, T, FL2: Fn() -> L2, P: Fn(&mut L1, &mut L2, &T) -> bool> {
    collector: C,
    local1: L1,
    fns: Arc<PredWithFns<L1, L2, T, FL2, P>>,
}

/// The consumer of [`FilterWith`]: every split gets a clone of the first
/// local state.
#[verifier::reject_recursive_types(L1)]
#[verifier::reject_recursive_types(L2)]
#[verifier::reject_recursive_types(T)]
pub struct FilterWithConsumer<K, L1, L2, T, FL2: Fn() -> L2, P: Fn(&mut L1, &mut L2, &T) -> bool> {
    consumer: K,
    local1: L1,
    fns: Arc<PredWithFns<L1, L2, T, FL2, P>>,
}

/// The serial collector of a [`FilterWithConsumer`]: forwards an item only
/// if the predicate accepts it.
#[verifier::reject_recursive_types(L1)]
#[verifier::reject_recursive_types(L2)]
#[verifier::reject_recursive_types(T)]
pub struct FilterWithSerial<S, L1, L2, T, FL2: Fn() -> L2, P: Fn(&mut L1, &mut L2, &T) -> bool> {
    collector: S,
    local1: L1,
    local2: L2,
    fns: Arc<PredWithFns<L1, L2, T, FL2, P>>,
}

impl<C, L1, L2, T, FL2: Fn() -> L2, P: Fn(&mut L1, &mut L2, &T) -> bool> FilterWith<C, L1, L2, T, FL2, P> {
    /// The underlying collector.
    pub closed spec fn inner(&self) -> C {
        self.collector
    }

    /// The first local state every serial part starts from a clone of.
    pub closed spec fn local1(&self) -> L1 {
        self.local1
    }

    /// The functions.
    pub closed spec fn fns(&self) -> PredWithFns<L1, L2, T, FL2, P> {
        *self.fns
    }

    /// Collects into `collector` only the items `pred` accepts, asked with
    /// the local states of its serial part (a clone of `local1` and a state
    /// made by `local2_f`).
    pub fn new(collector: C, local1: L1, local2_f: FL2, pred: P) -> (filter: Self)
        requires
            local2_f.requires(()),
            forall|local1: &mut L1, local2: &mut L2, item: &T| #[trigger] pred.requires((local1, local2, item)),
        ensures
            filter.inner() == collector,
            filter.local1() == local1,
            filter.fns().local2_f() == local2_f,
            filter.fns().pred() == pred,
    {
        FilterWith { collector, local1, fns: Arc::new(PredWithFns::new(local2_f, pred)) }
    }
}

impl<K, L1, L2, T, FL2: Fn() -> L2, P: Fn(&mut L1, &mut L2, &T) -> bool> FilterWithConsumer<K, L1, L2, T, FL2, P> {
    /// The underlying consumer.
    pub closed spec fn inner(&self) -> K {
        self.consumer
    }

    /// The first local state of this split's serial collector.
    pub closed spec fn local1(&self) -> L1 {
        self.local1
    }

    /// The functions.
    pub closed spec fn fns(&self) -> PredWithFns<L1, L2, T, FL2, P> {
        *self.fns
    }
}

impl<S, L1, L2, T, FL2: Fn() -> L2, P: Fn(&mut L1, &mut L2, &T) -> bool> FilterWithSerial<S, L1, L2, T, FL2, P> {
    /// The underlying serial collector.
    pub closed spec fn inner(&self) -> S {
        self.collector
    }

    /// The first local state.
    pub closed spec fn local1(&self) -> L1 {
        self.local1
    }

    /// The second local state.
    pub closed spec fn local2(&self) -> L2 {
        self.local2
    }

    /// The functions.
    pub closed spec fn fns(&self) -> PredWithFns<L1, L2, T, FL2, P> {
        *self.fns
    }
}

impl<S: SerialCollectorBase, L1, L2, T, FL2: Fn() -> L2, P: Fn(&mut L1, &mut L2, &T) -> bool> SerialCollectorBase for FilterWithSerial<S, L1, L2, T, FL2, P> {
    type Output = S::Output;

    /// The underlying collector's output.
    fn finish(self) -> (output: S::Output)
        ensures
            finishes(self.inner(), output),
    {
        self.collector.finish()
    }

    /// The underlying collector's hint.
    fn break_hint(&self) -> (cf: ControlFlow<()>)
        ensures
            hints(self.inner(), cf),
    {
        self.collector.break_hint()
    }
}

impl<S: SerialCollector<T>, L1, L2, T, FL2: Fn() -> L2, P: Fn(&mut L1, &mut L2, &T) -> bool> CollectSpec<T> for FilterWithSerial<S, L1, L2, T, FL2, P> {
    /// Either the item is dropped (the underlying collector is untouched and
    /// its hint is reported) or the underlying collector collects it. What
    /// the predicate said, with which states, is stated on `collect` itself,
    /// through the loans of them.
    open spec fn collect_spec(before: Self, item: T, after: Self, cf: ControlFlow<()>) -> bool {
        &&& after.fns() == before.fns()
        &&& (after.inner() == before.inner() && hints(before.inner(), cf))
            || S::collect_spec(before.inner(), item, after.inner(), cf)
    }
}

impl<S: SerialCollector<T>, L1, L2, T, FL2: Fn() -> L2, P: Fn(&mut L1, &mut L2, &T) -> bool> SerialCollector<T> for FilterWithSerial<S, L1, L2, T, FL2, P> {
    /// Forwards the item only if the predicate, asked with the local states,
    /// accepts it; otherwise reports the underlying collector's hint.
    fn collect(&mut self, item: T) -> (cf: ControlFlow<()>)
        ensures
            exists|m1: &mut L1, m2: &mut L2, accepted: bool| *m1 == old(self).local1() && *final(m1) == final(self).local1()
                && *m2 == old(self).local2() && *final(m2) == final(self).local2()
                && #[trigger] old(self).fns().pred().ensures((m1, m2, &item), accepted)
                && if accepted {
                    S::collect_spec(old(self).inner(), item, final(self).inner(), cf)
                } else {
                    final(self).inner() == old(self).inner() && hints(old(self).inner(), cf)
                },
    {
        let accepted = self.fns.holds(&mut self.local1, &mut self.local2, &item);
        if accepted {
            let cf = self.collector.collect(item);
            assert(S::collect_spec(old(self).inner(), item, self.inner(), cf));
            cf
        } else {
            let cf = self.collector.break_hint();
            assert(hints(old(self).inner(), cf));
            cf
        }
    }
}

impl<K: UnindexedConsumer, L1: Clone, L2, T, FL2: Fn() -> L2, P: Fn(&mut L1, &mut L2, &T) -> bool> Consumer for FilterWithConsumer<K, L1, L2, T, FL2, P> {
    /// The index is ignored: the underlying consumer splits freely, and the combiner is the right split's.
    open spec fn split_at_spec(before: Self, index: usize, after: Self, split: (Self, Self::Combiner)) -> bool {
        K::split_spec(before.inner(), after.inner(), split.0.inner()) && gives_combiner(after.inner(), split.1) && vstd::pervasive::cloned(before.local1(), split.0.local1()) && split.0.fns() == before.fns()
            && after.local1() == before.local1() && after.fns() == before.fns()
    }

    type Output = K::Output;

    type Combiner = K::Combiner;

    type Serial = FilterWithSerial<K::Serial, L1, L2, T, FL2, P>;

    /// The underlying serial collector, with this split's first local state
    /// and a new second one.
    fn into_collector(self) -> (serial: FilterWithSerial<K::Serial, L1, L2, T, FL2, P>)
        ensures
            converts(self.inner(), serial.inner()),
            serial.local1() == self.local1(),
            serial.fns() == self.fns(),
            self.fns().local2_f().ensures((), serial.local2()),
    {
        let local2 = self.fns.make_local2();
        FilterWithSerial { collector: self.consumer.into_collector(), local1: self.local1, local2, fns: self.fns }
    }

    /// Items may be dropped anywhere, so the index is ignored and the split
    /// is an unindexed one.
    fn split_off_left_at(&mut self, index: usize) -> (split: (Self, K::Combiner))
        ensures
            exists|m: &mut K| *m == old(self).inner() && *final(m) == final(self).inner()
                && crate::collector::plumbing::splits(m, split.0.inner()),
            gives_combiner(final(self).inner(), split.1),
            vstd::pervasive::cloned(old(self).local1(), split.0.local1()),
            split.0.fns() == old(self).fns(),
            final(self).local1() == old(self).local1(),
            final(self).fns() == old(self).fns(),
    {
        let left = self.split_off_left();
        (left, self.to_combiner())
    }

    /// The underlying consumer's hint.
    fn break_hint(&self) -> (cf: ControlFlow<()>)
        ensures
            consumer_hints(self.inner(), cf),
    {
        self.consumer.break_hint()
    }
}

impl<K: UnindexedConsumer, L1: Clone, L2, T, FL2: Fn() -> L2, P: Fn(&mut L1, &mut L2, &T) -> bool> UnindexedConsumer for FilterWithConsumer<K, L1, L2, T, FL2, P> {
    /// The underlying consumer splits; the left split gets a clone of the first local state.
    open spec fn split_spec(before: Self, after: Self, left: Self) -> bool {
        K::split_spec(before.inner(), after.inner(), left.inner()) && vstd::pervasive::cloned(before.local1(), left.local1()) && left.fns() == before.fns()
            && after.local1() == before.local1() && after.fns() == before.fns()
    }

    /// The underlying consumer splits; the left split gets a clone of the
    /// first local state.
    fn split_off_left(&mut self) -> (left: Self)
        ensures
            exists|m: &mut K| *m == old(self).inner() && *final(m) == final(self).inner()
                && crate::collector::plumbing::splits(m, left.inner()),
            vstd::pervasive::cloned(old(self).local1(), left.local1()),
            left.fns() == old(self).fns(),
            final(self).local1() == old(self).local1(),
            final(self).fns() == old(self).fns(),
    {
        let consumer = self.consumer.split_off_left();
        let local1 = self.local1.clone();
        assert(vstd::pervasive::cloned(self.local1, local1));
        FilterWithConsumer { consumer, local1, fns: share(&self.fns) }
    }

    /// The underlying consumer's combiner.
    fn to_combiner(&self) -> (combiner: K::Combiner)
        ensures
            gives_combiner(self.inner(), combiner),
    {
        self.consumer.to_combiner()
    }
}

impl<C: UnindexedParallelCollectorBase, L1: Clone, L2, T, FL2: Fn() -> L2, P: Fn(&mut L1, &mut L2, &T) -> bool> ParallelCollectorBase for FilterWith<C, L1, L2, T, FL2, P> {
    type Output = C::Output;

    type IndexedConsumer = FilterWithConsumer<C::UnindexedParts, L1, L2, T, FL2, P>;

    /// Parts for all `len` items: a consumer of the underlying unindexed
    /// path, with a clone of the first local state.
    open spec fn parts_spec(before: Self, len: usize, after: Self, parts: (usize, Self::IndexedConsumer)) -> bool {
        &&& parts.0 == len
        &&& C::parts_unindexed_spec(before.inner(), after.inner(), parts.1.inner())
        &&& vstd::pervasive::cloned(before.local1(), parts.1.local1())
        &&& parts.1.fns() == before.fns()
        &&& after.local1() == before.local1() && after.fns() == before.fns()
    }

    /// The underlying collector commits the output on its unindexed path.
    open spec fn commit_spec(before: Self, output: <C::UnindexedParts as Consumer>::Output, after: Self, cf: ControlFlow<()>) -> bool {
        &&& C::commit_unindexed_spec(before.inner(), output, after.inner(), cf)
        &&& after.local1() == before.local1() && after.fns() == before.fns()
    }

    /// The underlying collector's final output.
    fn finish(self) -> (output: C::Output)
        ensures
            par_finishes(self.inner(), output),
    {
        self.collector.finish()
    }

    /// The underlying collector's hint.
    fn break_hint(&self) -> (cf: ControlFlow<()>)
        ensures
            par_hints(self.inner(), cf),
    {
        self.collector.break_hint()
    }

    fn parts(&mut self, len: usize) -> (parts: (usize, Self::IndexedConsumer)) {
        let consumer = self.collector.parts_unindexed();
        assert(C::parts_unindexed_spec(old(self).inner(), self.inner(), consumer));
        let local1 = self.local1.clone();
        assert(vstd::pervasive::cloned(self.local1, local1));
        (len, FilterWithConsumer { consumer, local1, fns: share(&self.fns) })
    }

    fn commit(&mut self, output: <C::UnindexedParts as Consumer>::Output) -> (cf: ControlFlow<()>) {
        self.collector.commit_unindexed(output)
    }
}

impl<C: UnindexedParallelCollectorBase, L1: Clone, L2, T, FL2: Fn() -> L2, P: Fn(&mut L1, &mut L2, &T) -> bool> UnindexedParallelCollectorBase for FilterWith<C, L1, L2, T, FL2, P> {
    type UnindexedParts = FilterWithConsumer<C::UnindexedParts, L1, L2, T, FL2, P>;

    /// The underlying collector's unindexed consumer, with a clone of the
    /// first local state.
    open spec fn parts_unindexed_spec(before: Self, after: Self, consumer: Self::UnindexedParts) -> bool {
        &&& C::parts_unindexed_spec(before.inner(), after.inner(), consumer.inner())
        &&& vstd::pervasive::cloned(before.local1(), consumer.local1())
        &&& consumer.fns() == before.fns()
        &&& after.local1() == before.local1() && after.fns() == before.fns()
    }

    open spec fn commit_unindexed_spec(before: Self, output: <C::UnindexedParts as Consumer>::Output, after: Self, cf: ControlFlow<()>) -> bool {
        &&& C::commit_unindexed_spec(before.inner(), output, after.inner(), cf)
        &&& after.local1() == before.local1() && after.fns() == before.fns()
    }

    fn parts_unindexed(&mut self) -> (consumer: Self::UnindexedParts) {
        let inner = self.collector.parts_unindexed();
        assert(C::parts_unindexed_spec(old(self).inner(), self.inner(), inner));
        let local1 = self.local1.clone();
        assert(vstd::pervasive::cloned(self.local1, local1));
        FilterWithConsumer { consumer: inner, local1, fns: share(&self.fns) }
    }

    fn commit_unindexed(&mut self, output: <C::UnindexedParts as Consumer>::Output) -> (cf: ControlFlow<()>) {
        self.collector.commit_unindexed(output)
    }
}

} // verus!
