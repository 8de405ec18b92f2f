//! `map_with()`: maps each item, with local states of each serial part,
//! before the underlying collector collects it.
use vstd::prelude::*;
use std::ops::ControlFlow;
use std::sync::Arc;

use super::shared::share;
use crate::collector::plumbing::{
    consumer_hints, converts, finishes, gives_combiner, hints, CollectSpec, Consumer, SerialCollector,
    SerialCollectorBase, UnindexedConsumer,
};
use crate::collector::{par_finishes, par_hints, ParallelCollectorBase, UnindexedParallelCollectorBase};

verus! {

/// The functions of a mapping with local states: one makes the second local
/// state of a serial part, the other maps an item with both local states.
/// Both can be called on any states and item.
#[verifier::reject_recursive_types(L1)]
#[verifier::reject_recursive_types(L2)]
#[verifier::reject_recursive_types(U)]
#[verifier::reject_recursive_types(T)]
pub struct WithFns<L1, L2, U, T, FL2: Fn() -> L2, F: Fn(&mut L1, &mut L2, U) -> T> {
    local2_f: FL2,
    f: F,
    _local1: std::marker::PhantomData<L1>,
    _local2: std::marker::PhantomData<L2>,
    _item: std::marker::PhantomData<U>,
    _mapped: std::marker::PhantomData<T>,
}

impl<L1, L2, U, T, FL2: Fn() -> L2, F: Fn(&mut L1, &mut L2, U) -> T> WithFns<L1, L2, U, T, FL2, F> {
    /// Both functions can be called on anything.
    #[verifier::type_invariant]
    spec fn accept_anything(self) -> bool {
        &&& self.local2_f.requires(())
        &&& forall|local1: &mut L1, local2: &mut L2, item: U| #[trigger] self.f.requires((local1, local2, item))
    }

    /// The function making second local states.
    pub closed spec fn local2_f(&self) -> FL2 {
        self.local2_f
    }

    /// The function mapping an item.
    pub closed spec fn f(&self) -> F {
        self.f
    }

    /// Wraps `local2_f` and `f`, which can be called on anything.
    pub fn new(local2_f: FL2, f: F) -> (fns: Self)
        requires
            local2_f.requires(()),
            forall|local1: &mut L1, local2: &mut L2, item: U| #[trigger] f.requires((local1, local2, item)),
        ensures
            fns.local2_f() == local2_f,
            fns.f() == f,
    {
        WithFns {
            local2_f,
            f,
            _local1: std::marker::PhantomData,
            _local2: std::marker::PhantomData,
            _item: std::marker::PhantomData,
            _mapped: std::marker::PhantomData,
        }
    }

    /// A new second local state.
    pub fn make_local2(&self) -> (local2: L2)
        ensures
            self.local2_f().ensures((), local2),
    {
        proof { use_type_invariant(self); }
        (self.local2_f)()
    }

    /// Maps `item` with both local states.
    pub fn call(&self, local1: &mut L1, local2: &mut L2, item: U) -> (mapped: T)
        ensures
            exists|m1: &mut L1, m2: &mut L2| *m1 == *old(local1) && *final(m1) == *final(local1)
                && *m2 == *old(local2) && *final(m2) == *final(local2)
                && #[trigger] self.f().ensures((m1, m2, item), mapped),
    {
        proof { use_type_invariant(self); }
        assert(self.f() == self.f);
        (self.f)(local1, local2, item)
    }
}

/// A parallel collector that maps each item, with local states of each
/// serial part, before the underlying collector collects it: every serial
/// part starts from a clone of the first local state and a new second one.
#[verifier::reject_recursive_types(L1)]
#[verifier::reject_recursive_types(L2)]
#[verifier::reject_recursive_types(U)]
#[verifier::reject_recursive_types(T)]
pub struct MapWith<C, L1, L2, U, T, FL2: Fn() -> L2, F: Fn(&mut L1, &mut L2, U) -> T> {
    collector: C,
    local1: L1,
    fns: Arc<WithFns<L1, L2, U, T, FL2, F>>,
}

/// The consumer of [`MapWith`]: every split gets a clone of the first local
/// state.
#[verifier::reject_recursive_types(L1)]
#[verifier::reject_recursive_types(L2)]
#[verifier::reject_recursive_types(U)]
#[verifier::reject_recursive_types(T)]
pub struct MapWithConsumer<K, L1, L2, U, T, FL2: Fn() -> L2, F: Fn(&mut L1, &mut L2, U) -> T> {
    consumer: K,
    local1: L1,
    fns: Arc<WithFns<L1, L2, U, T, FL2, F>>,
}

/// The serial collector of a [`MapWithConsumer`]: maps each item with its
/// local states.
#[verifier::reject_recursive_types(L1)]
#[verifier::reject_recursive_types(L2)]
#[verifier::reject_recursive_types(U)]
#[verifier::reject_recursive_types(T)]
pub struct MapWithSerial<S, L1, L2, U, T, FL2: Fn() -> L2, F: Fn(&mut L1, &mut L2, U) -> T> {
    collector: S,
    local1: L1,
    local2: L2,
    fns: Arc<WithFns<L1, L2, U, T, FL2, F>>,
}

impl<C, L1, L2, U, T, FL2: Fn() -> L2, F: Fn(&mut L1, &mut L2, U) -> T> MapWith<C, L1, L2, U, T, FL2, F> {
    /// The underlying collector.
    pub closed spec fn inner(&self) -> C {
        self.collector
    }

    /// The first local state every serial part starts from a clone of.
    pub closed spec fn local1(&self) -> L1 {
        self.local1
    }

    /// The functions.
    pub closed spec fn fns(&self) -> WithFns<L1, L2, U, T, FL2, F> {
        *self.fns
    }

    /// Maps each item with `f` and the local states of its serial part (a
    /// clone of `local1` and a state made by `local2_f`) before `collector`
    /// collects it.
    pub fn new(collector: C, local1: L1, local2_f: FL2, f: F) -> (map: Self)
        requires
            local2_f.requires(()),
            forall|local1: &mut L1, local2: &mut L2, item: U| #[trigger] f.requires((local1, local2, item)),
        ensures
            map.inner() == collector,
            map.local1() == local1,
            map.fns().local2_f() == local2_f,
            map.fns().f() == f,
    {
        MapWith { collector, local1, fns: Arc::new(WithFns::new(local2_f, f)) }
    }
}

impl<K, L1, L2, U, T, FL2: Fn() -> L2, F: Fn(&mut L1, &mut L2, U) -> T> MapWithConsumer<K, L1, L2, U, T, FL2, F> {
    /// The underlying consumer.
    pub closed spec fn inner(&self) -> K {
        self.consumer
    }

    /// The first local state of this split's serial collector.
    pub closed spec fn local1(&self) -> L1 {
        self.local1
    }

    /// The functions.
    pub closed spec fn fns(&self) -> WithFns<L1, L2, U, T, FL2, F> {
        *self.fns
    }
}

impl<S, L1, L2, U, T, FL2: Fn() -> L2, F: Fn(&mut L1, &mut L2, U) -> T> MapWithSerial<S, L1, L2, U, T, FL2, F> {
    /// The underlying serial collector.
    pub closed spec fn inner(&self) -> S {
        self.collector
    }

    /// The first local state.
    pub closed spec fn local1(&self) -> L1 {
        self.local1
    }

    /// The second local state.
    pub closed spec fn local2(&self) -> L2 {
        self.local2
    }

    /// The functions.
    pub closed spec fn fns(&self) -> WithFns<L1, L2, U, T, FL2, F> {
        *self.fns
    }
}

impl<S: SerialCollectorBase, L1, L2, U, T, FL2: Fn() -> L2, F: Fn(&mut L1, &mut L2, U) -> T> SerialCollectorBase for MapWithSerial<S, L1, L2, U, T, FL2, F> {
    type Output = S::Output;

    /// The underlying collector's output.
    fn finish(self) -> (output: S::Output)
        ensures
            finishes(self.inner(), output),
    {
        self.collector.finish()
    }

    /// The underlying collector's hint.
    fn break_hint(&self) -> (cf: ControlFlow<()>)
        ensures
            hints(self.inner(), cf),
    {
        self.collector.break_hint()
    }
}

impl<S: SerialCollector<T>, L1, L2, U, T, FL2: Fn() -> L2, F: Fn(&mut L1, &mut L2, U) -> T> CollectSpec<U> for MapWithSerial<S, L1, L2, U, T, FL2, F> {
    /// The underlying collector collects what the function made of the item.
    /// How the function uses the local states is stated on `collect` itself,
    /// through the loans of them.
    open spec fn collect_spec(before: Self, item: U, after: Self, cf: ControlFlow<()>) -> bool {
        &&& after.fns() == before.fns()
        &&& exists|mapped: T| #[trigger] S::collect_spec(before.inner(), mapped, after.inner(), cf)
    }
}

impl<S: SerialCollector<T>, L1, L2, U, T, FL2: Fn() -> L2, F: Fn(&mut L1, &mut L2, U) -> T> SerialCollector<U> for MapWithSerial<S, L1, L2, U, T, FL2, F> {
    /// Maps the item with the local states, and the underlying collector
    /// collects the result.
    fn collect(&mut self, item: U) -> (cf: ControlFlow<()>)
        ensures
            exists|m1: &mut L1, m2: &mut L2, mapped: T| *m1 == old(self).local1() && *final(m1) == final(self).local1()
                && *m2 == old(self).local2() && *final(m2) == final(self).local2()
                && #[trigger] old(self).fns().f().ensures((m1, m2, item), mapped)
                && S::collect_spec(old(self).inner(), mapped, final(self).inner(), cf),
    {
        let mapped = self.fns.call(&mut self.local1, &mut self.local2, item);
        let cf = self.collector.collect(mapped);
        assert(S::collect_spec(old(self).inner(), mapped, self.inner(), cf));
        cf
    }
}

impl<K: Consumer, L1: Clone, L2, U, T, FL2: Fn() -> L2, F: Fn(&mut L1, &mut L2, U) -> T> Consumer for MapWithConsumer<K, L1, L2, U, T, FL2, F> {
    /// The underlying consumer splits at `index`; the left split gets a clone of the first local state.
    open spec fn split_at_spec(before: Self, index: usize, after: Self, split: (Self, Self::Combiner)) -> bool {
        K::split_at_spec(before.inner(), index, after.inner(), (split.0.inner(), split.1)) && vstd::pervasive::cloned(before.local1(), split.0.local1()) && split.0.fns() == before.fns()
            && after.local1() == before.local1() && after.fns() == before.fns()
    }

    type Output = K::Output;

    type Combiner = K::Combiner;

    type Serial = MapWithSerial<K::Serial, L1, L2, U, T, FL2, F>;

    /// The underlying serial collector, with this split's first local state
    /// and a new second one.
    fn into_collector(self) -> (serial: MapWithSerial<K::Serial, L1, L2, U, T, FL2, F>)
        ensures
            converts(self.inner(), serial.inner()),
            serial.local1() == self.local1(),
            serial.fns() == self.fns(),
            self.fns().local2_f().ensures((), serial.local2()),
    {
        let local2 = self.fns.make_local2();
        MapWithSerial { collector: self.consumer.into_collector(), local1: self.local1, local2, fns: self.fns }
    }

    /// The underlying consumer splits; the left split gets a clone of the
    /// first local state.
    fn split_off_left_at(&mut self, index: usize) -> (split: (Self, K::Combiner))
        ensures
            exists|m: &mut K| *m == old(self).inner() && *final(m) == final(self).inner()
                && crate::collector::plumbing::splits_at(m, index, (split.0.inner(), split.1)),
            vstd::pervasive::cloned(old(self).local1(), split.0.local1()),
            split.0.fns() == old(self).fns(),
            final(self).local1() == old(self).local1(),
            final(self).fns() == old(self).fns(),
    {
        let (consumer, combiner) = self.consumer.split_off_left_at(index);
        let local1 = self.local1.clone();
        assert(vstd::pervasive::cloned(self.local1, local1));
        (MapWithConsumer { consumer, local1, fns: share(&self.fns) }, combiner)
    }

    /// The underlying consumer's hint.
    fn break_hint(&self) -> (cf: ControlFlow<()>)
        ensures
            consumer_hints(self.inner(), cf),
    {
        self.consumer.break_hint()
    }
}

impl<K: UnindexedConsumer, L1: Clone, L2, U, T, FL2: Fn() -> L2, F: Fn(&mut L1, &mut L2, U) -> T> UnindexedConsumer for MapWithConsumer<K, L1, L2, U, T, FL2, F> {
    /// The underlying consumer splits; the left split gets a clone of the first local state.
    open spec fn split_spec(before: Self, after: Self, left: Self) -> bool {
        K::split_spec(before.inner(), after.inner(), left.inner()) && vstd::pervasive::cloned(before.local1(), left.local1()) && left.fns() == before.fns()
            && after.local1() == before.local1() && after.fns() == before.fns()
    }

    /// The underlying consumer splits; the left split gets a clone of the
    /// first local state.
    fn split_off_left(&mut self) -> (left: Self)
        ensures
            exists|m: &mut K| *m == old(self).inner() && *final(m) == final(self).inner()
                && crate::collector::plumbing::splits(m, left.inner()),
            vstd::pervasive::cloned(old(self).local1(), left.local1()),
            left.fns() == old(self).fns(),
            final(self).local1() == old(self).local1(),
            final(self).fns() == old(self).fns(),
    {
        let consumer = self.consumer.split_off_left();
        let local1 = self.local1.clone();
        assert(vstd::pervasive::cloned(self.local1, local1));
        MapWithConsumer { consumer, local1, fns: share(&self.fns) }
    }

    /// The underlying consumer's combiner.
    fn to_combiner(&self) -> (combiner: K::Combiner)
        ensures
            gives_combiner(self.inner(), combiner),
    {
        self.consumer.to_combiner()
    }
}

impl<C: ParallelCollectorBase, L1: Clone, L2, U, T, FL2: Fn() -> L2, F: Fn(&mut L1, &mut L2, U) -> T> ParallelCollectorBase for MapWith<C, L1, L2, U, T, FL2, F> {
    type Output = C::Output;

    type IndexedConsumer = MapWithConsumer<C::IndexedConsumer, L1, L2, U, T, FL2, F>;

    /// The underlying collector's parts; the consumer gets a clone of the
    /// first local state.
    open spec fn parts_spec(before: Self, len: usize, after: Self, parts: (usize, Self::IndexedConsumer)) -> bool {
        &&& C::parts_spec(before.inner(), len, after.inner(), (parts.0, parts.1.inner()))
        &&& vstd::pervasive::cloned(before.local1(), parts.1.local1())
        &&& parts.1.fns() == before.fns()
        &&& after.local1() == before.local1() && after.fns() == before.fns()
    }

    open spec fn commit_spec(before: Self, output: <C::IndexedConsumer as Consumer>::Output, after: Self, cf: ControlFlow<()>) -> bool {
        &&& C::commit_spec(before.inner(), output, after.inner(), cf)
        &&& after.local1() == before.local1() && after.fns() == before.fns()
    }

    /// The underlying collector's final output.
    fn finish(self) -> (output: C::Output)
        ensures
            par_finishes(self.inner(), output),
    {
        self.collector.finish()
    }

    /// The underlying collector's hint.
    fn break_hint(&self) -> (cf: ControlFlow<()>)
        ensures
            par_hints(self.inner(), cf),
    {
        self.collector.break_hint()
    }

    fn parts(&mut self, len: usize) -> (parts: (usize, Self::IndexedConsumer)) {
        let inner = self.collector.parts(len);
        assert(C::parts_spec(old(self).inner(), len, self.inner(), inner));
        let (len, consumer) = inner;
        let local1 = self.local1.clone();
        assert(vstd::pervasive::cloned(self.local1, local1));
        (len, MapWithConsumer { consumer, local1, fns: share(&self.fns) })
    }

    fn commit(&mut self, output: <C::IndexedConsumer as Consumer>::Output) -> (cf: ControlFlow<()>) {
        self.collector.commit(output)
    }
}

impl<C: UnindexedParallelCollectorBase, L1: Clone, L2, U, T, FL2: Fn() -> L2, F: Fn(&mut L1, &mut L2, U) -> T> UnindexedParallelCollectorBase for MapWith<C, L1, L2, U, T, FL2, F> {
    type UnindexedParts = MapWithConsumer<C::UnindexedParts, L1, L2, U, T, FL2, F>;

    /// The underlying collector's unindexed consumer, with a clone of the
    /// first local state.
    open spec fn parts_unindexed_spec(before: Self, after: Self, consumer: Self::UnindexedParts) -> bool {
        &&& C::parts_unindexed_spec(before.inner(), after.inner(), consumer.inner())
        &&& vstd::pervasive::cloned(before.local1(), consumer.local1())
        &&& consumer.fns() == before.fns()
        &&& after.local1() == before.local1() && after.fns() == before.fns()
    }

    open spec fn commit_unindexed_spec(before: Self, output: <C::UnindexedParts as Consumer>::Output, after: Self, cf: ControlFlow<()>) -> bool {
        &&& C::commit_unindexed_spec(before.inner(), output, after.inner(), cf)
        &&& after.local1() == before.local1() && after.fns() == before.fns()
    }

    fn parts_unindexed(&mut self) -> (consumer: Self::UnindexedParts) {
        let inner = self.collector.parts_unindexed();
        assert(C::parts_unindexed_spec(old(self).inner(), self.inner(), inner));
        let local1 = self.local1.clone();
        assert(vstd::pervasive::cloned(self.local1, local1));
        MapWithConsumer { consumer: inner, local1, fns: share(&self.fns) }
    }

    fn commit_unindexed(&mut self, output: <C::UnindexedParts as Consumer>::Output) -> (cf: ControlFlow<()>) {
        self.collector.commit_unindexed(output)
    }
}

} // verus!
