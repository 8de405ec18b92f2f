//! `map()`: maps each item before the underlying collector collects it.
use vstd::prelude::*;
use std::ops::ControlFlow;
use std::sync::Arc;

use super::shared::share;
use crate::collector::plumbing::{
    collects, consumer_hints, converts, finishes, gives_combiner, hints, splits, splits_at, Consumer, CollectSpec, SerialCollector,
    SerialCollectorBase, UnindexedConsumer,
};
use crate::collector::{
    commits, commits_unindexed, hands_out, hands_out_unindexed, par_finishes, par_hints, ParallelCollectorBase,
    UnindexedParallelCollectorBase,
};

verus! {

/// A function of items that accepts any item of type `T`.
#[verifier::reject_recursive_types(T)]
#[verifier::reject_recursive_types(U)]
pub struct ItemFn<T, F: Fn(T) -> U, U> {
    f: F,
    _item: std::marker::PhantomData<T>,
    _mapped: std::marker::PhantomData<U>,
}

impl<T, F: Fn(T) -> U, U> ItemFn<T, F, U> {
    /// The function can be called on any item.
    #[verifier::type_invariant]
    spec fn accepts_any_item(self) -> bool {
        forall|item: T| #[trigger] self.f.requires((item,))
    }

    /// The function.
    pub closed spec fn f(&self) -> F {
        self.f
    }

    /// Wraps `f`, which accepts any item.
    pub fn new(f: F) -> (item_fn: Self)
        requires
            forall|item: T| #[trigger] f.requires((item,)),
        ensures
            item_fn.f() == f,
    {
        ItemFn { f, _item: std::marker::PhantomData, _mapped: std::marker::PhantomData }
    }

    /// Calls the function on `item`.
    pub fn call(&self, item: T) -> (mapped: U)
        ensures
            self.f().ensures((item,), mapped),
    {
        proof { use_type_invariant(self); }
        (self.f)(item)
    }
}

/// A parallel collector that maps each item with a function before the
/// underlying collector collects it. All splits share the function.
#[verifier::reject_recursive_types(T)]
#[verifier::reject_recursive_types(U)]
pub struct MapBase<C, T, F: Fn(T) -> U, U> {
    collector: C,
    f: Arc<ItemFn<T, F, U>>,
}

/// The consumer of [`MapBase`].
#[verifier::reject_recursive_types(T)]
#[verifier::reject_recursive_types(U)]
pub struct MapConsumer<K, T, F: Fn(T) -> U, U> {
    consumer: K,
    f: Arc<ItemFn<T, F, U>>,
}

/// The serial collector of a [`MapConsumer`].
#[verifier::reject_recursive_types(T)]
#[verifier::reject_recursive_types(U)]
pub struct MapSerial<S, T, F: Fn(T) -> U, U> {
    collector: S,
    f: Arc<ItemFn<T, F, U>>,
}

impl<C, T, F: Fn(T) -> U, U> MapBase<C, T, F, U> {
    /// The underlying collector.
    pub closed spec fn inner(&self) -> C {
        self.collector
    }

    /// The function.
    pub closed spec fn f(&self) -> F {
        self.f.f()
    }

    /// Maps each item with `f` before `collector` collects it.
    pub fn new(collector: C, f: F) -> (map: Self)
        requires
            forall|item: T| #[trigger] f.requires((item,)),
        ensures
            map.inner() == collector,
            map.f() == f,
    {
        MapBase { collector, f: Arc::new(ItemFn::new(f)) }
    }
}

impl<K, T, F: Fn(T) -> U, U> MapConsumer<K, T, F, U> {
    /// The function.
    pub closed spec fn f(&self) -> F {
        self.f.f()
    }

    /// The underlying consumer.
    pub closed spec fn inner(&self) -> K {
        self.consumer
    }
}

impl<S, T, F: Fn(T) -> U, U> MapSerial<S, T, F, U> {
    /// The function.
    pub closed spec fn f(&self) -> F {
        self.f.f()
    }

    /// The underlying serial collector.
    pub closed spec fn inner(&self) -> S {
        self.collector
    }
}

impl<S: SerialCollectorBase, T, F: Fn(T) -> U, U> SerialCollectorBase for MapSerial<S, T, F, U> {
    type Output = S::Output;

    /// The underlying collector's output.
    fn finish(self) -> (output: S::Output)
        ensures
            finishes(self.inner(), output),
    {
        self.collector.finish()
    }

    /// The underlying collector's hint.
    fn break_hint(&self) -> (cf: ControlFlow<()>)
        ensures
            hints(self.inner(), cf),
    {
        self.collector.break_hint()
    }
}

impl<S: SerialCollector<U>, T, F: Fn(T) -> U, U> CollectSpec<T> for MapSerial<S, T, F, U> {
    open spec fn collect_spec(before: Self, item: T, after: Self, cf: ControlFlow<()>) -> bool {
        &&& after.f() == before.f()
        &&& exists|mapped: U| #[trigger] before.f().ensures((item,), mapped)
            && S::collect_spec(before.inner(), mapped, after.inner(), cf)
    }
}

impl<S: SerialCollector<U>, T, F: Fn(T) -> U, U> SerialCollector<T> for MapSerial<S, T, F, U> {
    /// Collects what the function returns on `item`.
    fn collect(&mut self, item: T) -> (cf: ControlFlow<()>)
        ensures
            final(self).f() == old(self).f(),
            exists|mapped: U| #[trigger] old(self).f().ensures((item,), mapped) && exists|m: &mut S| *m == old(self).inner() && *final(m) == final(self).inner() && collects(m, mapped, cf),
    {
        let mapped = self.f.call(item);
        self.collector.collect(mapped)
    }
}

impl<K: Consumer, T, F: Fn(T) -> U, U> Consumer for MapConsumer<K, T, F, U> {
    /// The underlying consumer splits at `index`; both share the function.
    open spec fn split_at_spec(before: Self, index: usize, after: Self, split: (Self, Self::Combiner)) -> bool {
        K::split_at_spec(before.inner(), index, after.inner(), (split.0.inner(), split.1)) && split.0.f() == before.f() && after.f() == before.f()
    }

    type Output = K::Output;

    type Combiner = K::Combiner;

    type Serial = MapSerial<K::Serial, T, F, U>;

    fn into_collector(self) -> (serial: MapSerial<K::Serial, T, F, U>)
        ensures
            serial.f() == self.f(),
            converts(self.inner(), serial.inner()),
    {
        MapSerial { collector: self.consumer.into_collector(), f: self.f }
    }

    /// Both splits share the function.
    fn split_off_left_at(&mut self, index: usize) -> (split: (Self, K::Combiner))
        ensures
            split.0.f() == old(self).f(),
            final(self).f() == old(self).f(),
            exists|m: &mut K| *m == old(self).inner() && *final(m) == final(self).inner() && splits_at(m, index, (split.0.inner(), split.1)),
    {
        let (consumer, combiner) = self.consumer.split_off_left_at(index);
        (MapConsumer { consumer, f: share(&self.f) }, combiner)
    }

    /// The underlying consumer's hint.
    fn break_hint(&self) -> (cf: ControlFlow<()>)
        ensures
            consumer_hints(self.inner(), cf),
    {
        self.consumer.break_hint()
    }
}

impl<K: UnindexedConsumer, T, F: Fn(T) -> U, U> UnindexedConsumer for MapConsumer<K, T, F, U> {
    /// The underlying consumer splits; both share the function.
    open spec fn split_spec(before: Self, after: Self, left: Self) -> bool {
        K::split_spec(before.inner(), after.inner(), left.inner()) && left.f() == before.f() && after.f() == before.f()
    }

    /// Both splits share the function.
    fn split_off_left(&mut self) -> (left: Self)
        ensures
            left.f() == old(self).f(),
            final(self).f() == old(self).f(),
            exists|m: &mut K| *m == old(self).inner() && *final(m) == final(self).inner() && splits(m, left.inner()),
    {
        MapConsumer { consumer: self.consumer.split_off_left(), f: share(&self.f) }
    }

    /// The underlying consumer's combiner.
    fn to_combiner(&self) -> (combiner: K::Combiner)
        ensures
            gives_combiner(self.inner(), combiner),
    {
        self.consumer.to_combiner()
    }
}

impl<C: ParallelCollectorBase, T, F: Fn(T) -> U, U> ParallelCollectorBase for MapBase<C, T, F, U> {
    type Output = C::Output;

    type IndexedConsumer = MapConsumer<C::IndexedConsumer, T, F, U>;

    open spec fn parts_spec(before: Self, len: usize, after: Self, parts: (usize, MapConsumer<C::IndexedConsumer, T, F, U>)) -> bool {
        &&& C::parts_spec(before.inner(), len, after.inner(), (parts.0, parts.1.inner()))
        &&& after.f() == before.f() && parts.1.f() == before.f()
    }

    open spec fn commit_spec(before: Self, output: <C::IndexedConsumer as Consumer>::Output, after: Self, cf: ControlFlow<()>) -> bool {
        C::commit_spec(before.inner(), output, after.inner(), cf) && after.f() == before.f()
    }

    /// The underlying collector's final output.
    fn finish(self) -> (output: C::Output)
        ensures
            par_finishes(self.inner(), output),
    {
        self.collector.finish()
    }

    /// The underlying collector's hint.
    fn break_hint(&self) -> (cf: ControlFlow<()>)
        ensures
            par_hints(self.inner(), cf),
    {
        self.collector.break_hint()
    }

    /// The underlying collector's parts, mapping with the shared function.
    fn parts(&mut self, len: usize) -> (parts: (usize, MapConsumer<C::IndexedConsumer, T, F, U>))
        ensures
            parts.1.f() == old(self).f(),
            final(self).f() == old(self).f(),
            exists|m: &mut C| *m == old(self).inner() && *final(m) == final(self).inner() && hands_out(m, len, (parts.0, parts.1.inner())),
    {
        let (len, consumer) = self.collector.parts(len);
        (len, MapConsumer { consumer, f: share(&self.f) })
    }

    /// Commits to the underlying collector, and says what it says.
    fn commit(&mut self, output: <C::IndexedConsumer as Consumer>::Output) -> (cf: ControlFlow<()>)
        ensures
            final(self).f() == old(self).f(),
            exists|m: &mut C| *m == old(self).inner() && *final(m) == final(self).inner() && commits(m, output, cf),
    {
        self.collector.commit(output)
    }
}

impl<C: UnindexedParallelCollectorBase, T, F: Fn(T) -> U, U> UnindexedParallelCollectorBase for MapBase<C, T, F, U> {
    type UnindexedParts = MapConsumer<C::UnindexedParts, T, F, U>;

    open spec fn parts_unindexed_spec(before: Self, after: Self, consumer: MapConsumer<C::UnindexedParts, T, F, U>) -> bool {
        &&& C::parts_unindexed_spec(before.inner(), after.inner(), consumer.inner())
        &&& after.f() == before.f() && consumer.f() == before.f()
    }

    open spec fn commit_unindexed_spec(before: Self, output: <C::UnindexedParts as Consumer>::Output, after: Self, cf: ControlFlow<()>) -> bool {
        C::commit_unindexed_spec(before.inner(), output, after.inner(), cf) && after.f() == before.f()
    }

    fn parts_unindexed(&mut self) -> (consumer: MapConsumer<C::UnindexedParts, T, F, U>)
        ensures
            consumer.f() == old(self).f(),
            final(self).f() == old(self).f(),
            exists|m: &mut C| *m == old(self).inner() && *final(m) == final(self).inner() && hands_out_unindexed(m, consumer.inner()),
    {
        MapConsumer { consumer: self.collector.parts_unindexed(), f: share(&self.f) }
    }

    /// Commits to the underlying collector, and says what it says.
    fn commit_unindexed(&mut self, output: <C::UnindexedParts as Consumer>::Output) -> (cf: ControlFlow<()>)
        ensures
            final(self).f() == old(self).f(),
            exists|m: &mut C| *m == old(self).inner() && *final(m) == final(self).inner() && commits_unindexed(m, output, cf),
    {
        self.collector.commit_unindexed(output)
    }
}

} // verus!
