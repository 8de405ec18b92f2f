//! `nest_local()` and its variants: each serial part collects its items into
//! a local serial collector of its own, whose output is then collected as
//! one item by the underlying collector.
use vstd::prelude::*;
use std::ops::ControlFlow;
use std::sync::Arc;

use super::map::ItemFn;
use super::shared::share;
use crate::collector::plumbing::{
    collects, consumer_hints, converts, finishes, gives_combiner, hints, splits, Consumer, CollectSpec, SerialCollector,
    SerialCollectorBase, UnindexedConsumer,
};
use crate::collector::{
    commits_unindexed, hands_out_unindexed, par_finishes, par_hints, ParallelCollectorBase,
    UnindexedParallelCollectorBase,
};

verus! {

/// What every serial part of a nested collector makes its local serial
/// collector from. Every split gets an anchor of its own.
pub trait Anchor: Sized {
    /// The local serial collector.
    type Local: SerialCollectorBase;

    /// An anchor for another split.
    fn split(&self) -> Self;

    /// The local serial collector of a part.
    fn into_local(self) -> Self::Local;

    /// Whether the local collectors made from this anchor have stopped.
    fn break_hint(&self) -> ControlFlow<()>;
}

/// Reports a stop if the first signal is a stop; otherwise the second one.
pub fn stop_or(first: ControlFlow<()>, second: ControlFlow<()>) -> (cf: ControlFlow<()>)
    ensures
        first is Break ==> cf is Break,
        first is Continue ==> cf == second,
{
    match first {
        ControlFlow::Break(()) => ControlFlow::Break(()),
        ControlFlow::Continue(()) => second,
    }
}

/// A parallel collector whose serial parts each collect into a local serial
/// collector made from an anchor; the local output of each part is one item
/// of the underlying collector. Both of its paths use the unindexed path of
/// the underlying collector.
pub struct NestLocalBase<C, A> {
    collector: C,
    anchor: A,
}

/// The consumer of [`NestLocalBase`]: every split gets its own anchor.
pub struct NestLocalConsumer<K, A> {
    consumer: K,
    anchor: A,
}

/// The serial collector of a [`NestLocalConsumer`]: items go to the local
/// collector, whose output goes to the underlying one on finishing.
pub struct NestLocalSerial<S, L> {
    outer: S,
    inner: L,
}

impl<C, A> NestLocalBase<C, A> {
    /// The underlying collector.
    pub closed spec fn inner(&self) -> C {
        self.collector
    }

    /// The anchor every part's local collector is made from.
    pub closed spec fn anchor(&self) -> A {
        self.anchor
    }
}

impl<S, L> NestLocalSerial<S, L> {
    /// The underlying serial collector.
    pub closed spec fn outer(&self) -> S {
        self.outer
    }

    /// The local serial collector.
    pub closed spec fn local(&self) -> L {
        self.inner
    }
}

impl<K, A> NestLocalConsumer<K, A> {
    /// The underlying consumer.
    pub closed spec fn inner(&self) -> K {
        self.consumer
    }

    /// This split's anchor.
    pub closed spec fn anchor(&self) -> A {
        self.anchor
    }
}

impl<S: SerialCollector<L::Output>, L: SerialCollectorBase> SerialCollectorBase for NestLocalSerial<S, L> {
    type Output = S::Output;

    /// The underlying collector collects the local output, then finishes.
    fn finish(self) -> (output: S::Output)
        ensures
            exists|local_output: L::Output, m: &mut S, cf: ControlFlow<()>|
                #![trigger finishes(self.local(), local_output), collects(m, local_output, cf)]
                finishes(self.local(), local_output) && *m == self.outer() && collects(m, local_output, cf)
                    && finishes(*final(m), output),
    {
        let local_output = self.inner.finish();
        assert(finishes(self.local(), local_output));
        let mut outer = self.outer;
        let _ = outer.collect(local_output);
        let output = outer.finish();
        assert(finishes(outer, output));
        output
    }

    /// A stop once the local collector has stopped; otherwise the underlying
    /// collector's hint.
    fn break_hint(&self) -> (cf: ControlFlow<()>)
        ensures
            exists|local_hint: ControlFlow<()>| #[trigger] hints(self.local(), local_hint)
                && (local_hint is Break ==> cf is Break) && (local_hint is Continue ==> hints(self.outer(), cf)),
    {
        let local_hint = self.inner.break_hint();
        assert(hints(self.local(), local_hint));
        stop_or(local_hint, self.outer.break_hint())
    }
}

impl<S: SerialCollector<L::Output>, L: SerialCollector<T>, T> CollectSpec<T> for NestLocalSerial<S, L> {
    /// The local collector collects the item; a stop of it is a stop,
    /// otherwise the underlying collector's hint is reported.
    open spec fn collect_spec(before: Self, item: T, after: Self, cf: ControlFlow<()>) -> bool {
        &&& after.outer() == before.outer()
        &&& exists|local_cf: ControlFlow<()>| #[trigger] L::collect_spec(before.local(), item, after.local(), local_cf)
            && (local_cf is Break ==> cf is Break) && (local_cf is Continue ==> hints(before.outer(), cf))
    }
}

impl<S: SerialCollector<L::Output>, L: SerialCollector<T>, T> SerialCollector<T> for NestLocalSerial<S, L> {
    /// The local collector collects the item.
    fn collect(&mut self, item: T) -> (cf: ControlFlow<()>)
        ensures
            final(self).outer() == old(self).outer(),
            exists|m: &mut L, local_cf: ControlFlow<()>| *m == old(self).local() && *final(m) == final(self).local()
                && collects(m, item, local_cf)
                && (local_cf is Break ==> cf is Break) && (local_cf is Continue ==> hints(old(self).outer(), cf)),
    {
        let cf = self.inner.collect(item);
        assert(L::collect_spec(old(self).local(), item, self.local(), cf));
        stop_or(cf, self.outer.break_hint())
    }
}

impl<K, A> Consumer for NestLocalConsumer<K, A> where
    A: Anchor,
    K: UnindexedConsumer<Serial: SerialCollector<<A::Local as SerialCollectorBase>::Output>>,
{
    /// The index is ignored: the underlying consumer splits freely, the
    /// left split gets an anchor split off this one's, and the combiner is
    /// the right split's.
    open spec fn split_at_spec(before: Self, index: usize, after: Self, split: (Self, Self::Combiner)) -> bool {
        &&& K::split_spec(before.inner(), after.inner(), split.0.inner())
        &&& gives_combiner(after.inner(), split.1)
        &&& A::split.ensures((&before.anchor(),), split.0.anchor())
        &&& after.anchor() == before.anchor()
    }

    type Output = K::Output;

    type Combiner = K::Combiner;

    type Serial = NestLocalSerial<K::Serial, A::Local>;

    /// The underlying serial collector, and the local one the anchor makes.
    fn into_collector(self) -> (serial: NestLocalSerial<K::Serial, A::Local>)
        ensures
            converts(self.inner(), serial.outer()),
            A::into_local.ensures((self.anchor(),), serial.local()),
    {
        NestLocalSerial { outer: self.consumer.into_collector(), inner: self.anchor.into_local() }
    }

    /// The index is ignored: the split is an unindexed one.
    fn split_off_left_at(&mut self, index: usize) -> (split: (Self, K::Combiner))
        ensures
            exists|m: &mut K| *m == old(self).inner() && *final(m) == final(self).inner() && splits(m, split.0.inner()),
            A::split.ensures((&old(self).anchor(),), split.0.anchor()),
            final(self).anchor() == old(self).anchor(),
            gives_combiner(final(self).inner(), split.1),
    {
        let left = self.split_off_left();
        (left, self.to_combiner())
    }

    /// A stop once the underlying consumer has stopped; otherwise the
    /// anchor's hint.
    fn break_hint(&self) -> (cf: ControlFlow<()>)
        ensures
            exists|hint: ControlFlow<()>| #[trigger] consumer_hints(self.inner(), hint)
                && (hint is Break ==> cf is Break) && (hint is Continue ==> A::break_hint.ensures((&self.anchor(),), cf)),
    {
        let hint = self.consumer.break_hint();
        assert(consumer_hints(self.inner(), hint));
        stop_or(hint, self.anchor.break_hint())
    }
}

impl<K, A> UnindexedConsumer for NestLocalConsumer<K, A> where
    A: Anchor,
    K: UnindexedConsumer<Serial: SerialCollector<<A::Local as SerialCollectorBase>::Output>>,
{
    /// The underlying consumer splits; the left split gets an anchor split
    /// off this one's.
    open spec fn split_spec(before: Self, after: Self, left: Self) -> bool {
        &&& K::split_spec(before.inner(), after.inner(), left.inner())
        &&& A::split.ensures((&before.anchor(),), left.anchor())
        &&& after.anchor() == before.anchor()
    }

    /// The left split gets an anchor of its own.
    fn split_off_left(&mut self) -> (left: Self)
        ensures
            exists|m: &mut K| *m == old(self).inner() && *final(m) == final(self).inner() && splits(m, left.inner()),
            A::split.ensures((&old(self).anchor(),), left.anchor()),
            final(self).anchor() == old(self).anchor(),
    {
        NestLocalConsumer { consumer: self.consumer.split_off_left(), anchor: self.anchor.split() }
    }

    /// The underlying consumer's combiner.
    fn to_combiner(&self) -> (combiner: K::Combiner)
        ensures
            gives_combiner(self.inner(), combiner),
    {
        self.consumer.to_combiner()
    }
}

impl<C, A> ParallelCollectorBase for NestLocalBase<C, A> where
    A: Anchor,
    C: UnindexedParallelCollectorBase<UnindexedParts: Consumer<Serial: SerialCollector<<A::Local as SerialCollectorBase>::Output>>>,
{
    type Output = C::Output;

    type IndexedConsumer = NestLocalConsumer<C::UnindexedParts, A>;

    /// Parts for all `len` items: a consumer of the underlying unindexed
    /// path, with an anchor split off this collector's.
    open spec fn parts_spec(before: Self, len: usize, after: Self, parts: (usize, NestLocalConsumer<C::UnindexedParts, A>)) -> bool {
        &&& parts.0 == len
        &&& C::parts_unindexed_spec(before.inner(), after.inner(), parts.1.inner())
        &&& A::split.ensures((&before.anchor(),), parts.1.anchor()) && after.anchor() == before.anchor()
    }

    open spec fn commit_spec(before: Self, output: <C::UnindexedParts as Consumer>::Output, after: Self, cf: ControlFlow<()>) -> bool {
        &&& after.anchor() == before.anchor()
        &&& C::commit_unindexed_spec(before.inner(), output, after.inner(), cf)
    }

    /// The underlying collector's final output.
    fn finish(self) -> (output: C::Output)
        ensures
            par_finishes(self.inner(), output),
    {
        self.collector.finish()
    }

    /// The underlying collector's hint.
    fn break_hint(&self) -> (cf: ControlFlow<()>)
        ensures
            par_hints(self.inner(), cf),
    {
        self.collector.break_hint()
    }

    /// Affords all `len` items: a consumer of the unindexed path, with an
    /// anchor of its own.
    fn parts(&mut self, len: usize) -> (parts: (usize, NestLocalConsumer<C::UnindexedParts, A>))
        ensures
            parts.0 == len,
            final(self).anchor() == old(self).anchor(),
            exists|m: &mut C| *m == old(self).inner() && *final(m) == final(self).inner() && hands_out_unindexed(m, parts.1.inner()),
            A::split.ensures((&old(self).anchor(),), parts.1.anchor()),
    {
        let consumer = self.collector.parts_unindexed();
        (len, NestLocalConsumer { consumer, anchor: self.anchor.split() })
    }

    /// Commits to the underlying collector's unindexed path, and says what it
    /// says.
    fn commit(&mut self, output: <C::UnindexedParts as Consumer>::Output) -> (cf: ControlFlow<()>)
        ensures
            final(self).anchor() == old(self).anchor(),
            exists|m: &mut C| *m == old(self).inner() && *final(m) == final(self).inner() && commits_unindexed(m, output, cf),
    {
        self.collector.commit_unindexed(output)
    }
}

impl<C, A> UnindexedParallelCollectorBase for NestLocalBase<C, A> where
    A: Anchor,
    C: UnindexedParallelCollectorBase<UnindexedParts: Consumer<Serial: SerialCollector<<A::Local as SerialCollectorBase>::Output>>>,
{
    type UnindexedParts = NestLocalConsumer<C::UnindexedParts, A>;

    open spec fn parts_unindexed_spec(before: Self, after: Self, consumer: NestLocalConsumer<C::UnindexedParts, A>) -> bool {
        &&& C::parts_unindexed_spec(before.inner(), after.inner(), consumer.inner())
        &&& A::split.ensures((&before.anchor(),), consumer.anchor()) && after.anchor() == before.anchor()
    }

    open spec fn commit_unindexed_spec(before: Self, output: <C::UnindexedParts as Consumer>::Output, after: Self, cf: ControlFlow<()>) -> bool {
        &&& after.anchor() == before.anchor()
        &&& C::commit_unindexed_spec(before.inner(), output, after.inner(), cf)
    }

    /// A consumer of the underlying unindexed path, with an anchor of its
    /// own.
    fn parts_unindexed(&mut self) -> (consumer: NestLocalConsumer<C::UnindexedParts, A>)
        ensures
            final(self).anchor() == old(self).anchor(),
            exists|m: &mut C| *m == old(self).inner() && *final(m) == final(self).inner() && hands_out_unindexed(m, consumer.inner()),
            A::split.ensures((&old(self).anchor(),), consumer.anchor()),
    {
        NestLocalConsumer { consumer: self.collector.parts_unindexed(), anchor: self.anchor.split() }
    }

    /// Commits to the underlying collector's unindexed path, and says what it
    /// says.
    fn commit_unindexed(&mut self, output: <C::UnindexedParts as Consumer>::Output) -> (cf: ControlFlow<()>)
        ensures
            final(self).anchor() == old(self).anchor(),
            exists|m: &mut C| *m == old(self).inner() && *final(m) == final(self).inner() && commits_unindexed(m, output, cf),
    {
        self.collector.commit_unindexed(output)
    }
}

/// An anchor that is a local serial collector: every part collects into a
/// clone of it.
#[derive(Clone)]
pub struct CloneAnchor<L> {
    local: L,
}

impl<L> CloneAnchor<L> {
    /// The local serial collector.
    pub closed spec fn local(&self) -> L {
        self.local
    }
}

impl<L: SerialCollectorBase + Clone> Anchor for CloneAnchor<L> {
    type Local = L;

    /// A clone of the local serial collector.
    fn split(&self) -> (anchor: Self)
        ensures
            vstd::pervasive::cloned(self.local(), anchor.local()),
    {
        let local = self.local.clone();
        assert(vstd::pervasive::cloned(self.local, local));
        CloneAnchor { local }
    }

    fn into_local(self) -> (local: L)
        ensures
            local == self.local(),
    {
        self.local
    }

    /// The local collector's hint.
    fn break_hint(&self) -> (cf: ControlFlow<()>)
        ensures
            hints(self.local(), cf),
    {
        self.local.break_hint()
    }
}

/// Nests a clone of a local serial collector in every serial part.
pub type NestLocal<C, L> = NestLocalBase<C, CloneAnchor<L>>;

impl<C, L> NestLocalBase<C, CloneAnchor<L>> {
    /// Nests a clone of `local` in every serial part of `collector`.
    pub fn new(collector: C, local: L) -> (nest: Self)
        ensures
            nest.inner() == collector,
    {
        NestLocalBase { collector, anchor: CloneAnchor { local } }
    }
}

/// An anchor that makes each part's local serial collector by calling a
/// function on a clone of a local value.
#[verifier::reject_recursive_types(L)]
#[verifier::reject_recursive_types(K)]
pub struct WithAnchor<L, F: Fn(L) -> K, K> {
    local: L,
    inner_f: Arc<ItemFn<L, F, K>>,
}

impl<L, F: Fn(L) -> K, K> WithAnchor<L, F, K> {
    /// The local value.
    pub closed spec fn local(&self) -> L {
        self.local
    }

    /// The function making local collectors.
    pub closed spec fn inner_f(&self) -> F {
        self.inner_f.f()
    }
}

impl<L: Clone, F: Fn(L) -> K, K: SerialCollectorBase> Anchor for WithAnchor<L, F, K> {
    type Local = K;

    /// A clone of the local value, with the same function.
    fn split(&self) -> (anchor: Self)
        ensures
            vstd::pervasive::cloned(self.local(), anchor.local()),
            anchor.inner_f() == self.inner_f(),
    {
        let local = self.local.clone();
        assert(vstd::pervasive::cloned(self.local, local));
        WithAnchor { local, inner_f: share(&self.inner_f) }
    }

    /// What the function makes of the local value.
    fn into_local(self) -> (local: K)
        ensures
            self.inner_f().ensures((self.local(),), local),
    {
        self.inner_f.call(self.local)
    }

    /// Local collectors made by a function give no hint in advance.
    fn break_hint(&self) -> (cf: ControlFlow<()>)
        ensures
            cf is Continue,
    {
        ControlFlow::Continue(())
    }
}

/// Makes each part's local serial collector by calling a function on a clone
/// of a local value.
pub type NestLocalWith<C, L, F, K> = NestLocalBase<C, WithAnchor<L, F, K>>;

impl<C, L, F: Fn(L) -> K, K> NestLocalBase<C, WithAnchor<L, F, K>> {
    /// Makes the local collector of every serial part of `collector` by
    /// calling `inner_f` on a clone of `local`.
    pub fn new(collector: C, local: L, inner_f: F) -> (nest: Self)
        requires
            forall|local: L| #[trigger] inner_f.requires((local,)),
        ensures
            nest.inner() == collector,
    {
        NestLocalBase { collector, anchor: WithAnchor { local, inner_f: Arc::new(ItemFn::new(inner_f)) } }
    }
}

/// The functions of a fold: one makes the second local state of a part, the
/// other folds an item into both local states. Both can be called on any
/// states and item.
#[verifier::reject_recursive_types(L1)]
#[verifier::reject_recursive_types(L2)]
#[verifier::reject_recursive_types(T)]
pub struct FoldFns<L1, L2, T, FL2: Fn() -> L2, F: Fn(&mut L1, &mut L2, T)> {
    local2_f: FL2,
    f: F,
    _local1: std::marker::PhantomData<L1>,
    _local2: std::marker::PhantomData<L2>,
    _item: std::marker::PhantomData<T>,
}

impl<L1, L2, T, FL2: Fn() -> L2, F: Fn(&mut L1, &mut L2, T)> FoldFns<L1, L2, T, FL2, F> {
    /// Both functions can be called on anything.
    #[verifier::type_invariant]
    spec fn accept_anything(self) -> bool {
        &&& self.local2_f.requires(())
        &&& forall|local1: &mut L1, local2: &mut L2, item: T| #[trigger] self.f.requires((local1, local2, item))
    }

    /// The function making second local states.
    pub closed spec fn local2_f(&self) -> FL2 {
        self.local2_f
    }

    /// The function folding an item into both local states.
    pub closed spec fn f(&self) -> F {
        self.f
    }

    /// Wraps `local2_f` and `f`, which can be called on anything.
    pub fn new(local2_f: FL2, f: F) -> (fns: Self)
        requires
            local2_f.requires(()),
            forall|local1: &mut L1, local2: &mut L2, item: T| #[trigger] f.requires((local1, local2, item)),
        ensures
            fns.local2_f() == local2_f,
            fns.f() == f,
    {
        FoldFns {
            local2_f,
            f,
            _local1: std::marker::PhantomData,
            _local2: std::marker::PhantomData,
            _item: std::marker::PhantomData,
        }
    }

    /// A new second local state.
    pub fn make_local2(&self) -> (local2: L2)
        ensures
            self.local2_f().ensures((), local2),
    {
        proof { use_type_invariant(self); }
        (self.local2_f)()
    }

    /// Folds `item` into both local states.
    pub fn fold(&self, local1: &mut L1, local2: &mut L2, item: T)
        ensures
            exists|m1: &mut L1, m2: &mut L2| *m1 == *old(local1) && *final(m1) == *final(local1)
                && *m2 == *old(local2) && *final(m2) == *final(local2)
                && #[trigger] self.f().ensures((m1, m2, item), ()),
    {
        proof { use_type_invariant(self); }
        assert(self.f() == self.f);
        (self.f)(local1, local2, item)
    }
}

/// The local serial collector of a fold: every item is folded into the two
/// local states, and the output is both states. It never stops.
#[verifier::reject_recursive_types(L1)]
#[verifier::reject_recursive_types(L2)]
#[verifier::reject_recursive_types(T)]
pub struct FoldSerial<L1, L2, T, FL2: Fn() -> L2, F: Fn(&mut L1, &mut L2, T)> {
    local1: L1,
    local2: L2,
    fns: Arc<FoldFns<L1, L2, T, FL2, F>>,
}

impl<L1, L2, T, FL2: Fn() -> L2, F: Fn(&mut L1, &mut L2, T)> FoldSerial<L1, L2, T, FL2, F> {
    /// The first local state.
    pub closed spec fn local1(&self) -> L1 {
        self.local1
    }

    /// The second local state.
    pub closed spec fn local2(&self) -> L2 {
        self.local2
    }

    /// The functions of the fold.
    pub closed spec fn fns(&self) -> FoldFns<L1, L2, T, FL2, F> {
        *self.fns
    }
}

impl<L1, L2, T, FL2: Fn() -> L2, F: Fn(&mut L1, &mut L2, T)> SerialCollectorBase for FoldSerial<L1, L2, T, FL2, F> {
    type Output = (L1, L2);

    /// Both local states.
    fn finish(self) -> (states: (L1, L2))
        ensures
            states == (self.local1(), self.local2()),
    {
        (self.local1, self.local2)
    }

    fn break_hint(&self) -> (cf: ControlFlow<()>)
        ensures
            cf is Continue,
    {
        ControlFlow::Continue(())
    }
}

impl<L1, L2, T, FL2: Fn() -> L2, F: Fn(&mut L1, &mut L2, T)> CollectSpec<T> for FoldSerial<L1, L2, T, FL2, F> {
    /// The functions are kept and it never stops. How the local states
    /// change is stated on `collect` itself, through the borrows `f` gets.
    open spec fn collect_spec(before: Self, item: T, after: Self, cf: ControlFlow<()>) -> bool {
        after.fns() == before.fns() && cf is Continue
    }
}

impl<L1, L2, T, FL2: Fn() -> L2, F: Fn(&mut L1, &mut L2, T)> SerialCollector<T> for FoldSerial<L1, L2, T, FL2, F> {
    /// Folds the item into both local states; it never stops.
    fn collect(&mut self, item: T) -> (cf: ControlFlow<()>)
        ensures
            cf is Continue,
            final(self).fns() == old(self).fns(),
            exists|m1: &mut L1, m2: &mut L2| *m1 == old(self).local1() && *final(m1) == final(self).local1()
                && *m2 == old(self).local2() && *final(m2) == final(self).local2()
                && #[trigger] old(self).fns().f().ensures((m1, m2, item), ()),
    {
        self.fns.fold(&mut self.local1, &mut self.local2, item);
        ControlFlow::Continue(())
    }
}

/// An anchor for folds: a clone of the first local state, and a new second
/// local state, for every part.
#[verifier::reject_recursive_types(L1)]
#[verifier::reject_recursive_types(L2)]
#[verifier::reject_recursive_types(T)]
pub struct FoldAnchor<L1, L2, T, FL2: Fn() -> L2, F: Fn(&mut L1, &mut L2, T)> {
    local1: L1,
    fns: Arc<FoldFns<L1, L2, T, FL2, F>>,
}

impl<L1, L2, T, FL2: Fn() -> L2, F: Fn(&mut L1, &mut L2, T)> FoldAnchor<L1, L2, T, FL2, F> {
    /// The first local state every part starts from a clone of.
    pub closed spec fn local1(&self) -> L1 {
        self.local1
    }

    /// The functions of the fold.
    pub closed spec fn fns(&self) -> FoldFns<L1, L2, T, FL2, F> {
        *self.fns
    }
}

impl<L1: Clone, L2, T, FL2: Fn() -> L2, F: Fn(&mut L1, &mut L2, T)> Anchor for FoldAnchor<L1, L2, T, FL2, F> {
    type Local = FoldSerial<L1, L2, T, FL2, F>;

    /// A clone of the first local state, with the same functions.
    fn split(&self) -> (anchor: Self)
        ensures
            vstd::pervasive::cloned(self.local1(), anchor.local1()),
            anchor.fns() == self.fns(),
    {
        let local1 = self.local1.clone();
        assert(vstd::pervasive::cloned(self.local1, local1));
        FoldAnchor { local1, fns: share(&self.fns) }
    }

    /// The first local state, and a new second one.
    fn into_local(self) -> (local: FoldSerial<L1, L2, T, FL2, F>)
        ensures
            local.local1() == self.local1(),
            local.fns() == self.fns(),
            self.fns().local2_f().ensures((), local.local2()),
    {
        let local2 = self.fns.make_local2();
        FoldSerial { local1: self.local1, local2, fns: self.fns }
    }

    fn break_hint(&self) -> (cf: ControlFlow<()>)
        ensures
            cf is Continue,
    {
        ControlFlow::Continue(())
    }
}

/// Folds the items of every serial part into local states; each part's
/// states are one item of the underlying collector.
pub type FoldLocal<C, L1, L2, T, FL2, F> = NestLocalBase<C, FoldAnchor<L1, L2, T, FL2, F>>;

impl<C, L1, L2, T, FL2: Fn() -> L2, F: Fn(&mut L1, &mut L2, T)> NestLocalBase<C, FoldAnchor<L1, L2, T, FL2, F>> {
    /// Folds the items of every serial part of `collector` with `f` into a
    /// clone of `local1` and a state made by `local2_f`.
    pub fn new(collector: C, local1: L1, local2_f: FL2, f: F) -> (fold: Self)
        requires
            local2_f.requires(()),
            forall|local1: &mut L1, local2: &mut L2, item: T| #[trigger] f.requires((local1, local2, item)),
        ensures
            fold.inner() == collector,
    {
        NestLocalBase { collector, anchor: FoldAnchor { local1, fns: Arc::new(FoldFns::new(local2_f, f)) } }
    }
}

} // verus!
