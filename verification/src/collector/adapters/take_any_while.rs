//! `take_any_while()`: collects items while the predicate holds; once an item
//! fails it, every split stops taking items.
use vstd::prelude::*;
use std::ops::ControlFlow;
use std::sync::Arc;
use std::sync::atomic::{AtomicBool, Ordering};

use super::shared::share;
use crate::order::reversed;
use crate::collections::linked_list::{lemma_list_continues, ListSerial};
use crate::collector::plumbing::{
    collects, collects_each, continues_through, lemma_continues_through_push, consumer_hints, converts, finishes, gives_combiner, hints, splits, Consumer, CollectSpec, SerialCollector,
    SerialCollectorBase, UnindexedConsumer,
};
use crate::collector::{
    commits_unindexed, hands_out_unindexed, par_finishes, par_hints, ParallelCollectorBase,
    UnindexedParallelCollectorBase,
};

verus! {

/// The predicate over items of type `T`, and a flag set once some item
/// failed it.
pub struct TakePred<T, P: Fn(&T) -> bool> {
    pred: P,
    stopped: AtomicBool,
    _marker: std::marker::PhantomData<T>,
}

/// Whether an item is taken, given whether the flag was seen set and (when
/// it was not) what the predicate said; and whether the flag gets set.
pub open spec fn take_decision(seen_stopped: bool, accepted: bool) -> (bool, bool) {
    if seen_stopped {
        (false, false)
    } else if accepted {
        (true, false)
    } else {
        (false, true)
    }
}

/// Decides, as [`take_decision`] says, whether an item is taken and whether
/// the flag gets set.
pub fn decide(seen_stopped: bool, accepted: bool) -> (decision: (bool, bool))
    ensures
        decision == take_decision(seen_stopped, accepted),
{
    if seen_stopped {
        (false, false)
    } else if accepted {
        (true, false)
    } else {
        (false, true)
    }
}

impl<T, P: Fn(&T) -> bool> TakePred<T, P> {
    /// The predicate can be called on any item.
    #[verifier::type_invariant]
    spec fn accepts_any_item(self) -> bool {
        forall|item: &T| #[trigger] self.pred.requires((item,))
    }

    /// The predicate.
    pub closed spec fn pred(&self) -> P {
        self.pred
    }

    /// A predicate with its flag cleared.
    pub fn new(pred: P) -> (take_pred: Self)
        requires
            forall|item: &T| #[trigger] pred.requires((item,)),
        ensures
            take_pred.pred() == pred,
    {
        TakePred { pred, stopped: AtomicBool::new(false), _marker: std::marker::PhantomData }
    }

    /// The flag set once some item failed the predicate.
    pub closed spec fn stopped(&self) -> AtomicBool {
        self.stopped
    }

    /// Whether `item` is taken: only if no split has seen a failing item yet
    /// and the predicate accepts it. A failing item sets the flag.
    pub fn should_take(&self, item: &T) -> (take: bool)
        ensures
            take ==> self.pred().ensures((item,), true),
            exists|seen: bool| #[trigger] load_flag.ensures((&self.stopped(),), seen)
                && (seen ==> !take) && (!seen ==> self.pred().ensures((item,), take)),
    {
        proof { use_type_invariant(self); }
        let seen_stopped = load_flag(&self.stopped);
        assert(load_flag.ensures((&self.stopped(),), seen_stopped));
        let accepted = if seen_stopped { false } else { (self.pred)(item) };
        let (take, stop) = decide(seen_stopped, accepted);
        if stop {
            self.stopped.store(true, Ordering::Relaxed);
        }
        take
    }

    /// A stop once the flag has been seen set.
    pub fn break_hint(&self) -> (cf: ControlFlow<()>)
        ensures
            exists|seen: bool| #[trigger] load_flag.ensures((&self.stopped(),), seen) && ((cf is Break) <==> seen),
    {
        let seen = load_flag(&self.stopped);
        assert(load_flag.ensures((&self.stopped(),), seen));
        if seen {
            ControlFlow::Break(())
        } else {
            ControlFlow::Continue(())
        }
    }
}

/// Reads the flag, as the other splits have left it.
pub fn load_flag(flag: &AtomicBool) -> bool {
    flag.load(Ordering::Relaxed)
}

/// A parallel collector that collects items while the predicate holds.
/// Both of its paths use the unindexed path of the underlying collector.
pub struct TakeAnyWhile<C, T, P: Fn(&T) -> bool> {
    collector: C,
    take_pred: Arc<TakePred<T, P>>,
}

/// The consumer of [`TakeAnyWhile`]: all splits share the predicate and flag.
pub struct TakeAnyWhileConsumer<C, T, P: Fn(&T) -> bool> {
    consumer: C,
    take_pred: Arc<TakePred<T, P>>,
}

/// The serial collector of a [`TakeAnyWhileConsumer`]: forwards an item only
/// if it is taken.
pub struct TakeAnyWhileSerial<S, T, P: Fn(&T) -> bool> {
    collector: S,
    take_pred: Arc<TakePred<T, P>>,
}

impl<C, T, P: Fn(&T) -> bool> TakeAnyWhile<C, T, P> {
    /// The shared predicate and flag.
    pub closed spec fn take_pred(&self) -> TakePred<T, P> {
        *self.take_pred
    }

    /// The underlying collector.
    pub closed spec fn inner(&self) -> C {
        self.collector
    }

    /// Takes items into `collector` while `pred` holds.
    pub fn new(collector: C, pred: P) -> (adapter: Self)
        requires
            forall|item: &T| #[trigger] pred.requires((item,)),
        ensures
            adapter.take_pred().pred() == pred,
    {
        TakeAnyWhile { collector, take_pred: Arc::new(TakePred::new(pred)) }
    }
}

impl<C, T, P: Fn(&T) -> bool> TakeAnyWhileConsumer<C, T, P> {
    /// The shared predicate and flag.
    pub closed spec fn take_pred(&self) -> TakePred<T, P> {
        *self.take_pred
    }

    /// The underlying consumer.
    pub closed spec fn inner(&self) -> C {
        self.consumer
    }
}

impl<S, T, P: Fn(&T) -> bool> TakeAnyWhileSerial<S, T, P> {
    /// The shared predicate and flag.
    pub closed spec fn take_pred(&self) -> TakePred<T, P> {
        *self.take_pred
    }

    /// The underlying serial collector.
    pub closed spec fn inner(&self) -> S {
        self.collector
    }
}

impl<S: SerialCollectorBase, T, P: Fn(&T) -> bool> SerialCollectorBase for TakeAnyWhileSerial<S, T, P> {
    type Output = S::Output;

    /// The underlying collector's output.
    fn finish(self) -> (output: S::Output)
        ensures
            finishes(self.inner(), output),
    {
        self.collector.finish()
    }

    /// A stop once the flag is seen set; else the underlying collector's hint.
    fn break_hint(&self) -> (cf: ControlFlow<()>)
        ensures
            cf is Break || hints(self.inner(), cf),
            exists|flag_cf: ControlFlow<()>| #[trigger] TakePred::<T, P>::break_hint.ensures((&self.take_pred(),), flag_cf)
                && (flag_cf is Break ==> cf is Break) && (flag_cf is Continue ==> hints(self.inner(), cf)),
    {
        match self.take_pred.break_hint() {
            ControlFlow::Break(()) => ControlFlow::Break(()),
            ControlFlow::Continue(()) => self.collector.break_hint(),
        }
    }
}

impl<S: SerialCollector<T>, T, P: Fn(&T) -> bool> CollectSpec<T> for TakeAnyWhileSerial<S, T, P> {
    /// Either the item is not taken (the underlying collector is untouched
    /// and its hint is reported), or the predicate accepted it and the
    /// underlying collector collects it.
    open spec fn collect_spec(before: Self, item: T, after: Self, cf: ControlFlow<()>) -> bool {
        &&& after.take_pred() == before.take_pred()
        &&& (TakePred::<T, P>::should_take.ensures((&before.take_pred(), &item), false) && after.inner() == before.inner() && hints(before.inner(), cf))
            || (TakePred::<T, P>::should_take.ensures((&before.take_pred(), &item), true) && before.take_pred().pred().ensures((&item,), true)
                && S::collect_spec(before.inner(), item, after.inner(), cf))
    }
}

/// What collecting a batch does to a take-any-while serial collector: if the
/// underlying collector has already stopped, nothing is taken and it stops.
/// Otherwise the items are taken in order, each accepted by the predicate,
/// and collected one by one, until the underlying collector stops, an item
/// is not taken (it is dropped, and the batch ends with a stop) or the
/// items run out. It goes on only if the underlying collector went on.
pub open spec fn takes_while<S: SerialCollector<T>, T, P: Fn(&T) -> bool>(
    before: TakeAnyWhileSerial<S, T, P>,
    items: Seq<T>,
    after: TakeAnyWhileSerial<S, T, P>,
    cf: ControlFlow<()>,
) -> bool {
    &&& after.take_pred() == before.take_pred()
    &&& exists|hint: ControlFlow<()>| #[trigger] hints(before.inner(), hint) && if hint is Break {
        after.inner() == before.inner() && cf is Break
    } else {
        exists|taken: int, inner_cf: ControlFlow<()>|
            #![trigger collects_each(before.inner(), items.take(taken), after.inner(), inner_cf)]
            0 <= taken <= items.len()
            && (forall|j: int| 0 <= j < taken ==> before.take_pred().pred().ensures((&items[j],), true))
            && (forall|j: int| 0 <= j < taken ==> #[trigger] TakePred::<T, P>::should_take.ensures((&before.take_pred(), &items[j]), true))
            && collects_each(before.inner(), items.take(taken), after.inner(), inner_cf)
            && (inner_cf is Break ==> cf is Break)
            && (inner_cf is Continue && taken < items.len() ==> cf is Break
                && TakePred::<T, P>::should_take.ensures((&before.take_pred(), &items[taken]), false))
            && (cf is Continue ==> inner_cf is Continue)
            && (inner_cf is Continue && taken == items.len() ==> exists|flag_cf: ControlFlow<()>|
                #[trigger] TakePred::<T, P>::break_hint.ensures((&before.take_pred(),), flag_cf) && ((cf is Break) <==> (flag_cf is Break)))
    }
}

impl<S: SerialCollector<T>, T, P: Fn(&T) -> bool> SerialCollector<T> for TakeAnyWhileSerial<S, T, P> {
    /// A batch is taken as [`takes_while`] says.
    open spec fn batch_spec(before: Self, items: Seq<T>, after: Self, cf: ControlFlow<()>) -> bool {
        takes_while(before, items, after, cf)
    }

    /// Takes the items in order while they are taken, as [`takes_while`]
    /// says; once an item is not taken, or the flag is seen set, it stops.
    #[verifier::loop_isolation(false)]
    fn collect_many(&mut self, items: Vec<T>) -> (cf: ControlFlow<()>)
        ensures
            takes_while(*old(self), items@, *final(self), cf),
    {
        let ghost before = *self;
        let ghost all = items@;
        let hint = self.collector.break_hint();
        assert(hints(before.inner(), hint));
        if let ControlFlow::Break(()) = hint {
            assert(takes_while(before, all, *self, hint));
            return hint;
        }
        let mut rest = reversed(items);
        let ghost mut done: int = 0;
        while rest.len() > 0
            invariant
                rest@.len() + done == all.len(),
                0 <= done <= all.len(),
                forall|j: int| 0 <= j < rest@.len() ==> #[trigger] rest@[j] == all[all.len() - 1 - j],
                forall|j: int| 0 <= j < done ==> before.take_pred().pred().ensures((&all[j],), true),
                forall|j: int| 0 <= j < done ==> #[trigger] TakePred::<T, P>::should_take.ensures((&before.take_pred(), &all[j]), true),
                continues_through(before.inner(), all.take(done), self.inner()),
                self.take_pred() == before.take_pred(),
            decreases rest.len(),
        {
            let ghost mid = self.inner();
            let item = rest.pop().unwrap();
            assert(item == all[done]);
            if !self.take_pred.should_take(&item) {
                let cf = ControlFlow::Break(());
                assert(collects_each(before.inner(), all.take(done), self.inner(), ControlFlow::<()>::Continue(())));
                assert(takes_while(before, all, *self, cf));
                return cf;
            }
            let inner_cf = self.collector.collect(item);
            assert(S::collect_spec(mid, all[done], self.inner(), inner_cf));
            assert(all.take(done + 1).take(done) =~= all.take(done));
            if let ControlFlow::Break(()) = inner_cf {
                assert(continues_through(before.inner(), all.take(done + 1).take(done), mid));
                assert(collects_each(before.inner(), all.take(done + 1), self.inner(), inner_cf));
                assert(takes_while(before, all, *self, inner_cf));
                return inner_cf;
            }
            proof {
                lemma_continues_through_push(before.inner(), all.take(done), mid, item, self.inner(), inner_cf);
                assert(all.take(done).push(item) =~= all.take(done + 1));
                done = done + 1;
            }
        }
        assert(all.take(done) =~= all);
        let cf = match self.take_pred.break_hint() {
            ControlFlow::Break(()) => ControlFlow::Break(()),
            ControlFlow::Continue(()) => ControlFlow::Continue(()),
        };
        assert(collects_each(before.inner(), all.take(done), self.inner(), ControlFlow::<()>::Continue(())));
        assert(takes_while(before, all, *self, cf));
        cf
    }

    /// Forwards the item only if it is taken; otherwise reports the
    /// underlying collector's hint.
    fn collect(&mut self, item: T) -> (cf: ControlFlow<()>)
        ensures
            final(self).take_pred() == old(self).take_pred(),
            final(self).inner() == old(self).inner() || old(self).take_pred().pred().ensures((&item,), true),
            (final(self).inner() == old(self).inner() && hints(old(self).inner(), cf))
                || (old(self).take_pred().pred().ensures((&item,), true)
                    && exists|m: &mut S| *m == old(self).inner() && *final(m) == final(self).inner() && collects(m, item, cf)),
    {
        if self.take_pred.should_take(&item) {
            self.collector.collect(item)
        } else {
            self.collector.break_hint()
        }
    }

    /// Takes the items as [`collect_many`](Self::collect_many) does, then
    /// finishes.
    fn collect_then_finish(self, items: Vec<T>) -> (output: S::Output)
        ensures
            exists|after: Self, cf: ControlFlow<()>| #[trigger] takes_while(self, items@, after, cf) && finishes(after.inner(), output),
    {
        let ghost all = items@;
        let mut this = self;
        let cf = this.collect_many(items);
        let output = this.finish();
        assert(takes_while(self, all, this, cf) && finishes(this.inner(), output));
        assert(finishes(this, output));
        assert(Self::batch_spec(self, all, this, cf));
        output
    }
}

impl<C: UnindexedConsumer, T, P: Fn(&T) -> bool> Consumer for TakeAnyWhileConsumer<C, T, P> {
    /// The index is ignored: the underlying consumer splits freely, and the combiner is the right split's.
    open spec fn split_at_spec(before: Self, index: usize, after: Self, split: (Self, Self::Combiner)) -> bool {
        C::split_spec(before.inner(), after.inner(), split.0.inner()) && gives_combiner(after.inner(), split.1) && split.0.take_pred() == before.take_pred() && after.take_pred() == before.take_pred()
    }

    type Output = C::Output;

    type Combiner = C::Combiner;

    type Serial = TakeAnyWhileSerial<C::Serial, T, P>;

    fn into_collector(self) -> (serial: TakeAnyWhileSerial<C::Serial, T, P>)
        ensures
            serial.take_pred() == self.take_pred(),
            converts(self.inner(), serial.inner()),
    {
        TakeAnyWhileSerial { collector: self.consumer.into_collector(), take_pred: self.take_pred }
    }

    fn split_off_left_at(&mut self, index: usize) -> (split: (Self, C::Combiner))
        ensures
            split.0.take_pred() == old(self).take_pred(),
            final(self).take_pred() == old(self).take_pred(),
    {
        let left = self.split_off_left();
        (left, self.to_combiner())
    }

    /// A stop once the flag is seen set; else the underlying consumer's hint.
    fn break_hint(&self) -> (cf: ControlFlow<()>)
        ensures
            cf is Break || consumer_hints(self.inner(), cf),
            exists|flag_cf: ControlFlow<()>| #[trigger] TakePred::<T, P>::break_hint.ensures((&self.take_pred(),), flag_cf)
                && (flag_cf is Break ==> cf is Break) && (flag_cf is Continue ==> consumer_hints(self.inner(), cf)),
    {
        match self.take_pred.break_hint() {
            ControlFlow::Break(()) => ControlFlow::Break(()),
            ControlFlow::Continue(()) => self.consumer.break_hint(),
        }
    }
}

impl<C: UnindexedConsumer, T, P: Fn(&T) -> bool> UnindexedConsumer for TakeAnyWhileConsumer<C, T, P> {
    /// The underlying consumer splits; both share the predicate and flag.
    open spec fn split_spec(before: Self, after: Self, left: Self) -> bool {
        C::split_spec(before.inner(), after.inner(), left.inner()) && left.take_pred() == before.take_pred() && after.take_pred() == before.take_pred()
    }

    /// Both splits share the same predicate and flag.
    fn split_off_left(&mut self) -> (left: Self)
        ensures
            left.take_pred() == old(self).take_pred(),
            final(self).take_pred() == old(self).take_pred(),
            exists|m: &mut C| *m == old(self).inner() && *final(m) == final(self).inner() && splits(m, left.inner()),
    {
        TakeAnyWhileConsumer { consumer: self.consumer.split_off_left(), take_pred: share(&self.take_pred) }
    }

    /// The underlying consumer's combiner.
    fn to_combiner(&self) -> (combiner: C::Combiner)
        ensures
            gives_combiner(self.inner(), combiner),
    {
        self.consumer.to_combiner()
    }
}

impl<C: UnindexedParallelCollectorBase, T, P: Fn(&T) -> bool> ParallelCollectorBase for TakeAnyWhile<C, T, P> {
    type Output = C::Output;

    type IndexedConsumer = TakeAnyWhileConsumer<C::UnindexedParts, T, P>;

    /// Parts for all `len` items: a consumer of the underlying unindexed
    /// path, sharing this collector's take pred.
    open spec fn parts_spec(before: Self, len: usize, after: Self, parts: (usize, TakeAnyWhileConsumer<C::UnindexedParts, T, P>)) -> bool {
        &&& parts.0 == len
        &&& C::parts_unindexed_spec(before.inner(), after.inner(), parts.1.inner())
        &&& parts.1.take_pred() == before.take_pred() && after.take_pred() == before.take_pred()
    }

    open spec fn commit_spec(before: Self, output: <C::UnindexedParts as Consumer>::Output, after: Self, cf: ControlFlow<()>) -> bool {
        &&& after.take_pred() == before.take_pred()
        &&& exists|inner_cf: ControlFlow<()>| #[trigger] C::commit_unindexed_spec(before.inner(), output, after.inner(), inner_cf)
            && (inner_cf is Break ==> cf is Break)
            && (inner_cf is Continue ==> TakePred::<T, P>::break_hint.ensures((&before.take_pred(),), cf))
    }

    /// The underlying collector's final output.
    fn finish(self) -> (output: C::Output)
        ensures
            par_finishes(self.inner(), output),
    {
        self.collector.finish()
    }

    /// A stop once the flag is seen set; else the underlying collector's hint.
    fn break_hint(&self) -> (cf: ControlFlow<()>)
        ensures
            cf is Break || par_hints(self.inner(), cf),
            exists|flag_cf: ControlFlow<()>| #[trigger] TakePred::<T, P>::break_hint.ensures((&self.take_pred(),), flag_cf)
                && (flag_cf is Break ==> cf is Break) && (flag_cf is Continue ==> par_hints(self.inner(), cf)),
    {
        match self.take_pred.break_hint() {
            ControlFlow::Break(()) => ControlFlow::Break(()),
            ControlFlow::Continue(()) => self.collector.break_hint(),
        }
    }

    /// Affords all `len` items: items the predicate rejects are just dropped.
    fn parts(&mut self, len: usize) -> (parts: (usize, TakeAnyWhileConsumer<C::UnindexedParts, T, P>))
        ensures
            parts.0 == len,
            parts.1.take_pred() == old(self).take_pred(),
            final(self).take_pred() == old(self).take_pred(),
            exists|m: &mut C| *m == old(self).inner() && *final(m) == final(self).inner() && hands_out_unindexed(m, parts.1.inner()),
    {
        let consumer = self.collector.parts_unindexed();
        (len, TakeAnyWhileConsumer { consumer, take_pred: share(&self.take_pred) })
    }

    /// Commits to the underlying collector's unindexed path: a stop if it
    /// stops, else a stop once the flag is seen set.
    fn commit(&mut self, output: <C::UnindexedParts as Consumer>::Output) -> (cf: ControlFlow<()>)
        ensures
            final(self).take_pred() == old(self).take_pred(),
            exists|m: &mut C, inner_cf: ControlFlow<()>| *m == old(self).inner() && *final(m) == final(self).inner() && commits_unindexed(m, output, inner_cf) && (inner_cf is Break ==> cf is Break)
                && (inner_cf is Continue ==> TakePred::<T, P>::break_hint.ensures((&old(self).take_pred(),), cf)),
    {
        let inner = self.collector.commit_unindexed(output);
        assert(C::commit_unindexed_spec(old(self).inner(), output, self.inner(), inner));
        match inner {
            ControlFlow::Break(()) => ControlFlow::Break(()),
            ControlFlow::Continue(()) => self.take_pred.break_hint(),
        }
    }
}

impl<C: UnindexedParallelCollectorBase, T, P: Fn(&T) -> bool> UnindexedParallelCollectorBase for TakeAnyWhile<C, T, P> {
    type UnindexedParts = TakeAnyWhileConsumer<C::UnindexedParts, T, P>;

    open spec fn parts_unindexed_spec(before: Self, after: Self, consumer: TakeAnyWhileConsumer<C::UnindexedParts, T, P>) -> bool {
        &&& C::parts_unindexed_spec(before.inner(), after.inner(), consumer.inner())
        &&& consumer.take_pred() == before.take_pred() && after.take_pred() == before.take_pred()
    }

    open spec fn commit_unindexed_spec(before: Self, output: <C::UnindexedParts as Consumer>::Output, after: Self, cf: ControlFlow<()>) -> bool {
        &&& after.take_pred() == before.take_pred()
        &&& exists|inner_cf: ControlFlow<()>| #[trigger] C::commit_unindexed_spec(before.inner(), output, after.inner(), inner_cf)
            && (inner_cf is Break ==> cf is Break)
            && (inner_cf is Continue ==> TakePred::<T, P>::break_hint.ensures((&before.take_pred(),), cf))
    }

    fn parts_unindexed(&mut self) -> (consumer: TakeAnyWhileConsumer<C::UnindexedParts, T, P>)
        ensures
            consumer.take_pred() == old(self).take_pred(),
            final(self).take_pred() == old(self).take_pred(),
            exists|m: &mut C| *m == old(self).inner() && *final(m) == final(self).inner() && hands_out_unindexed(m, consumer.inner()),
    {
        let consumer = self.collector.parts_unindexed();
        TakeAnyWhileConsumer { consumer, take_pred: share(&self.take_pred) }
    }

    /// Commits to the underlying collector's unindexed path: a stop if it
    /// stops, else a stop once the flag is seen set.
    fn commit_unindexed(&mut self, output: <C::UnindexedParts as Consumer>::Output) -> (cf: ControlFlow<()>)
        ensures
            final(self).take_pred() == old(self).take_pred(),
            exists|m: &mut C, inner_cf: ControlFlow<()>| *m == old(self).inner() && *final(m) == final(self).inner() && commits_unindexed(m, output, inner_cf) && (inner_cf is Break ==> cf is Break)
                && (inner_cf is Continue ==> TakePred::<T, P>::break_hint.ensures((&old(self).take_pred(),), cf)),
    {
        let inner = self.collector.commit_unindexed(output);
        assert(C::commit_unindexed_spec(old(self).inner(), output, self.inner(), inner));
        match inner {
            ControlFlow::Break(()) => ControlFlow::Break(()),
            ControlFlow::Continue(()) => self.take_pred.break_hint(),
        }
    }
}

/// A take-any-while serial collector over a list, collecting a batch, pushes
/// exactly the longest prefix of the items that were taken, in order: every
/// item of it was taken (the predicate accepted it); if the batch was cut
/// short, the next item was not taken and it says stop; it goes on only if
/// every item was taken.
pub proof fn lemma_take_any_while_list_takes_prefix<T, P: Fn(&T) -> bool>(before: TakeAnyWhileSerial<ListSerial<T>, T, P>, items: Seq<T>, after: TakeAnyWhileSerial<ListSerial<T>, T, P>, cf: ControlFlow<()>)
    requires
        takes_while(before, items, after, cf),
    ensures
        exists|taken: int| #![trigger items.take(taken)] 0 <= taken <= items.len()
            && after.inner().items() == before.inner().items() + items.take(taken)
            && (forall|j: int| 0 <= j < taken ==> #[trigger] TakePred::<T, P>::should_take.ensures((&before.take_pred(), &items[j]), true)
                && before.take_pred().pred().ensures((&items[j],), true))
            && (taken < items.len() ==> cf is Break
                && TakePred::<T, P>::should_take.ensures((&before.take_pred(), &items[taken]), false))
            && (cf is Continue ==> taken == items.len()),
{
    let hint = choose|hint: ControlFlow<()>| #[trigger] hints(before.inner(), hint) && if hint is Break {
        after.inner() == before.inner() && cf is Break
    } else {
        exists|taken: int, inner_cf: ControlFlow<()>|
            #![trigger collects_each(before.inner(), items.take(taken), after.inner(), inner_cf)]
            0 <= taken <= items.len()
            && (forall|j: int| 0 <= j < taken ==> before.take_pred().pred().ensures((&items[j],), true))
            && (forall|j: int| 0 <= j < taken ==> #[trigger] TakePred::<T, P>::should_take.ensures((&before.take_pred(), &items[j]), true))
            && collects_each(before.inner(), items.take(taken), after.inner(), inner_cf)
            && (inner_cf is Break ==> cf is Break)
            && (inner_cf is Continue && taken < items.len() ==> cf is Break
                && TakePred::<T, P>::should_take.ensures((&before.take_pred(), &items[taken]), false))
            && (cf is Continue ==> inner_cf is Continue)
    };
    assert(hint is Continue);
    let (taken, inner_cf) = choose|taken: int, inner_cf: ControlFlow<()>|
        #![trigger collects_each(before.inner(), items.take(taken), after.inner(), inner_cf)]
        0 <= taken <= items.len()
        && (forall|j: int| 0 <= j < taken ==> before.take_pred().pred().ensures((&items[j],), true))
        && (forall|j: int| 0 <= j < taken ==> #[trigger] TakePred::<T, P>::should_take.ensures((&before.take_pred(), &items[j]), true))
        && collects_each(before.inner(), items.take(taken), after.inner(), inner_cf)
        && (inner_cf is Break ==> cf is Break)
        && (inner_cf is Continue && taken < items.len() ==> cf is Break
            && TakePred::<T, P>::should_take.ensures((&before.take_pred(), &items[taken]), false))
        && (cf is Continue ==> inner_cf is Continue);
    if inner_cf is Break {
        let (i, mid) = choose|i: int, mid: ListSerial<T>| 0 <= i < items.take(taken).len()
            && #[trigger] continues_through(before.inner(), items.take(taken).take(i), mid)
            && ListSerial::<T>::collect_spec(mid, items.take(taken)[i], after.inner(), inner_cf);
        assert(false);
    }
    lemma_list_continues(before.inner(), items.take(taken), after.inner());
}

} // verus!
