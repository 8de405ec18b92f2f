//! Low-level building blocks of a parallel collector: consumers that can be
//! split, and combiners that merge the outputs of two splits.
use vstd::prelude::*;
use std::ops::ControlFlow;

use crate::order::reversed;

verus! {

/// A serial collector: it collects items one by one, may signal that it has
/// stopped, and is finished into its output.
pub trait SerialCollectorBase: Sized {
    /// What finishing produces.
    type Output;

    /// Consumes the collector and returns what it has accumulated.
    fn finish(self) -> Self::Output;

    /// A hint whether this collector has stopped accumulating.
    fn break_hint(&self) -> ControlFlow<()>;
}

/// What collecting one item of type `T` may do to a serial collector.
pub trait CollectSpec<T>: Sized {
    /// Whether collecting `item` into `before` may leave `after` and say
    /// `cf`. A collector that states nothing of its collections keeps this
    /// default, which holds of any collection; reasoning over collectors in
    /// general never relies on it.
    open spec fn collect_spec(before: Self, item: T, after: Self, cf: ControlFlow<()>) -> bool {
        true
    }
}

/// A serial collector of items of type `T`.
pub trait SerialCollector<T>: SerialCollectorBase + CollectSpec<T> {

    /// How a collector that collects a batch its own way (rather than item
    /// by item, as [`collects_in_order`] says) may leave `after` and say `cf`.
    /// Collectors that collect item by item state nothing here.
    open spec fn batch_spec(before: Self, items: Seq<T>, after: Self, cf: ControlFlow<()>) -> bool {
        false
    }

    /// What a collector that collects a batch and finishes its own way
    /// (rather than as `collect_many` then `finish`) may output. Collectors
    /// that do it that way state nothing here.
    open spec fn batch_finish_spec(before: Self, items: Seq<T>, output: Self::Output) -> bool {
        false
    }

    /// Collects one item, and says whether the collector has stopped.
    fn collect(&mut self, item: T) -> (cf: ControlFlow<()>)
        ensures
            Self::collect_spec(*old(self), item, *final(self), cf),
    ;

    /// Collects `items` in order, stopping right after the first one on which
    /// the collector signals a stop. A collector whose hint already says it
    /// has stopped collects none of them.
    #[verifier::loop_isolation(false)]
    fn collect_many(&mut self, items: Vec<T>) -> (cf: ControlFlow<()>)
        ensures
            collects_in_order(*old(self), items@, *final(self), cf) || Self::batch_spec(*old(self), items@, *final(self), cf),
    {
        let ghost before = *self;
        let ghost all = items@;
        let hint = self.break_hint();
        assert(hints(before, hint));
        if let ControlFlow::Break(()) = hint {
            return hint;
        }
        let mut rest = reversed(items);
        let ghost mut done: int = 0;
        while rest.len() > 0
            invariant
                rest@.len() + done == all.len(),
                0 <= done <= all.len(),
                forall|j: int| 0 <= j < rest@.len() ==> #[trigger] rest@[j] == all[all.len() - 1 - j],
                continues_through(before, all.take(done), *self),
                hints(before, hint),
                hint is Continue,
            decreases rest.len(),
        {
            let ghost mid = *self;
            let item = rest.pop().unwrap();
            assert(item == all[done]);
            let cf = self.collect(item);
            assert(Self::collect_spec(mid, item, *self, cf));
            if let ControlFlow::Break(()) = cf {
                assert(continues_through(before, all.take(done), mid));
                assert(Self::collect_spec(mid, all[done], *self, cf));
                assert(collects_each(before, all, *self, cf));
                assert(collects_in_order(before, all, *self, cf));
                return cf;
            }
            proof {
                lemma_continues_through_push(before, all.take(done), mid, item, *self, cf);
                assert(all.take(done).push(item) =~= all.take(done + 1));
                done = done + 1;
            }
        }
        assert(all.take(done) =~= all);
        ControlFlow::Continue(())
    }

    /// Collects `items` as [`collect_many`](Self::collect_many) does, then
    /// finishes.
    fn collect_then_finish(self, items: Vec<T>) -> (output: Self::Output)
        ensures
            (exists|after: Self| #[trigger] finishes(after, output)
                && exists|cf: ControlFlow<()>|
                    collects_in_order(self, items@, after, cf)
                    || Self::batch_spec(self, items@, after, cf))
            || Self::batch_finish_spec(self, items@, output),
    {
        let ghost all = items@;
        let mut this = self;
        let cf = this.collect_many(items);
        let output = this.finish();
        assert(finishes(this, output));
        assert(collects_in_order(self, all, this, cf) || Self::batch_spec(self, all, this, cf));
        assert(exists|c: ControlFlow<()>| collects_in_order(self, all, this, c) || Self::batch_spec(self, all, this, c));
        output
    }
}

/// Collecting `items` one by one into `before`, may
/// leave `after`, each step saying to go on.
pub open spec fn continues_through<S: CollectSpec<T>, T>(before: S, items: Seq<T>, after: S) -> bool
    decreases items.len(),
{
    if items.len() == 0 {
        after == before
    } else {
        exists|mid: S, cf: ControlFlow<()>| #[trigger] S::collect_spec(before, items[0], mid, cf) && cf is Continue
            && continues_through::<S, T>(mid, items.drop_first(), after)
    }
}

/// Collecting `items` one by one into `before`
/// stopping right after the first one on which a step says to stop, may
/// leave `after` and say `cf`.
pub open spec fn collects_each<S: CollectSpec<T>, T>(before: S, items: Seq<T>, after: S, cf: ControlFlow<()>) -> bool {
    ||| cf is Continue && continues_through::<S, T>(before, items, after)
    ||| cf is Break && exists|i: int, mid: S| 0 <= i < items.len() && #[trigger] continues_through::<S, T>(before, items.take(i), mid)
        && S::collect_spec(mid, items[i], after, cf)
}

/// Collecting `items` in order into `before`, may
/// leave `after` and say `cf`: if its hint says it has stopped, nothing is
/// collected and it says stop; otherwise the items are collected one by one
/// as [`collects_each`] says.
pub open spec fn collects_in_order<S: SerialCollectorBase + CollectSpec<T>, T>(before: S, items: Seq<T>, after: S, cf: ControlFlow<()>) -> bool {
    exists|hint: ControlFlow<()>| #[trigger] hints(before, hint) && if hint is Break {
        after == before && cf is Break
    } else {
        collects_each(before, items, after, cf)
    }
}

/// Collecting each of `items` into `before`, whatever each collection says,
/// may leave `after`.
pub open spec fn collects_all<S: CollectSpec<T>, T>(before: S, items: Seq<T>, after: S) -> bool
    decreases items.len(),
{
    if items.len() == 0 {
        after == before
    } else {
        exists|mid: S, cf: ControlFlow<()>| #[trigger] S::collect_spec(before, items[0], mid, cf)
            && collects_all::<S, T>(mid, items.drop_first(), after)
    }
}

/// Collecting one more item extends the items collected.
pub proof fn lemma_collects_all_push<S: CollectSpec<T>, T>(before: S, items: Seq<T>, mid: S, item: T, after: S, cf: ControlFlow<()>)
    requires
        collects_all::<S, T>(before, items, mid),
        S::collect_spec(mid, item, after, cf),
    ensures
        collects_all::<S, T>(before, items.push(item), after),
    decreases items.len(),
{
    let pushed = items.push(item);
    if items.len() == 0 {
        assert(pushed.drop_first() =~= Seq::<T>::empty());
        assert(collects_all::<S, T>(after, pushed.drop_first(), after));
        assert(S::collect_spec(before, pushed[0], after, cf));
    } else {
        let (next, next_cf) = choose|next: S, next_cf: ControlFlow<()>| #[trigger] S::collect_spec(before, items[0], next, next_cf)
            && collects_all::<S, T>(next, items.drop_first(), mid);
        lemma_collects_all_push(next, items.drop_first(), mid, item, after, cf);
        assert(pushed.drop_first() =~= items.drop_first().push(item));
        assert(collects_all::<S, T>(next, pushed.drop_first(), after));
        assert(S::collect_spec(before, pushed[0], next, next_cf));
    }
}

/// Collecting `left`, then `right`, is collecting both in order.
pub proof fn lemma_collects_all_concat<S: CollectSpec<T>, T>(before: S, left: Seq<T>, mid: S, right: Seq<T>, after: S)
    requires
        collects_all::<S, T>(before, left, mid),
        collects_all::<S, T>(mid, right, after),
    ensures
        collects_all::<S, T>(before, left + right, after),
    decreases left.len(),
{
    if left.len() == 0 {
        assert(left + right =~= right);
    } else {
        let (next, next_cf) = choose|next: S, next_cf: ControlFlow<()>| #[trigger] S::collect_spec(before, left[0], next, next_cf)
            && collects_all::<S, T>(next, left.drop_first(), mid);
        lemma_collects_all_concat(next, left.drop_first(), mid, right, after);
        assert((left + right).drop_first() =~= left.drop_first() + right);
        assert((left + right)[0] == left[0]);
        assert(collects_all::<S, T>(next, (left + right).drop_first(), after));
    }
}

/// Going on through one more item extends the items gone through.
pub proof fn lemma_continues_through_push<S: CollectSpec<T>, T>(before: S, items: Seq<T>, mid: S, item: T, after: S, cf: ControlFlow<()>)
    requires
        continues_through::<S, T>(before, items, mid),
        S::collect_spec(mid, item, after, cf),
        cf is Continue,
    ensures
        continues_through::<S, T>(before, items.push(item), after),
    decreases items.len(),
{
    let pushed = items.push(item);
    if items.len() == 0 {
        assert(pushed.drop_first() =~= Seq::<T>::empty());
        assert(continues_through::<S, T>(after, pushed.drop_first(), after));
        assert(S::collect_spec(before, pushed[0], after, cf));
    } else {
        let (next, next_cf) = choose|next: S, next_cf: ControlFlow<()>| #[trigger] S::collect_spec(before, items[0], next, next_cf) && next_cf is Continue
            && continues_through::<S, T>(next, items.drop_first(), mid);
        lemma_continues_through_push(next, items.drop_first(), mid, item, after, cf);
        assert(pushed.drop_first() =~= items.drop_first().push(item));
        assert(continues_through::<S, T>(next, pushed.drop_first(), after));
        assert(S::collect_spec(before, pushed[0], next, next_cf));
    }
}

/// A combiner merges the output of the "right" split of a consumer
/// into the output of the "left" split.
pub trait Combiner<O>: Sized {
    /// Whether `right` may be merged into `left` by this combiner.
    open spec fn combinable(&self, left: O, right: O) -> bool {
        true
    }

    /// Whether combining `right` into `left` may give `combined`. A combiner
    /// that states nothing of it keeps this default, which holds of any.
    open spec fn combine_spec(&self, left: O, right: O, combined: O) -> bool {
        true
    }

    /// Combines two outputs by merging the right output into the left one.
    fn combine(self, left: &mut O, right: O)
        requires
            self.combinable(*old(left), right),
        ensures
            self.combine_spec(*old(left), right, *final(left)),
    ;
}

/// An (indexed) consumer that can be split at a given index.
pub trait Consumer: Sized {
    /// The output produced by this consumer (through its serial collector).
    type Output;

    /// The combiner produced when splitting.
    type Combiner: Combiner<Self::Output>;

    /// The serial collector this consumer converts into.
    type Serial: SerialCollectorBase<Output = Self::Output>;

    /// Converts into a serial collector, to feed items to.
    fn into_collector(self) -> Self::Serial;

    /// Whether splitting `before` at `index` may leave `after` (the right
    /// consumer) and give `split`. A consumer that states nothing of it keeps
    /// this default, which holds of any.
    open spec fn split_at_spec(before: Self, index: usize, after: Self, split: (Self, Self::Combiner)) -> bool {
        true
    }

    /// Produces the "left" consumer and a combiner. Afterwards this consumer
    /// is the "right" consumer.
    fn split_off_left_at(&mut self, index: usize) -> (split: (Self, Self::Combiner))
        ensures
            Self::split_at_spec(*old(self), index, *final(self), split),
    ;

    /// Whether the serial collector stops accumulating after being
    /// converted into.
    fn break_hint(&self) -> ControlFlow<()>;
}

/// An unindexed consumer that can be split freely without an index.
pub trait UnindexedConsumer: Consumer {
    /// Whether splitting `before` freely may leave `after` (the right
    /// consumer) and give `left`. A consumer that states nothing of it keeps
    /// this default, which holds of any.
    open spec fn split_spec(before: Self, after: Self, left: Self) -> bool {
        true
    }

    /// Produces the "left" consumer. Afterwards this consumer is the "right"
    /// consumer.
    fn split_off_left(&mut self) -> (left: Self)
        ensures
            Self::split_spec(*old(self), *final(self), left),
    ;

    /// Produces a combiner to combine the outputs of the two splits.
    fn to_combiner(&self) -> Self::Combiner;
}


/// `output` is what finishing `serial` may give.
pub open spec fn finishes<S: SerialCollectorBase>(serial: S, output: S::Output) -> bool {
    S::finish.ensures((serial,), output)
}

/// `cf` is what the hint of `serial` may say.
pub open spec fn hints<S: SerialCollectorBase>(serial: S, cf: ControlFlow<()>) -> bool {
    S::break_hint.ensures((&serial,), cf)
}

/// Collecting `item` through `m` may say `cf` (and leave `*final(m)`).
#[verifier::inline]
pub open spec fn collects<S: SerialCollector<T>, T>(m: &mut S, item: T, cf: ControlFlow<()>) -> bool {
    S::collect.ensures((m, item), cf)
}

/// Collecting `items` through `m` may say `cf` (and leave `*final(m)`).
#[verifier::inline]
pub open spec fn collects_many<S: SerialCollector<T>, T>(m: &mut S, items: Vec<T>, cf: ControlFlow<()>) -> bool {
    S::collect_many.ensures((m, items), cf)
}

/// Collecting `items` and finishing `serial` may give `output`.
pub open spec fn collects_then_finishes<S: SerialCollector<T>, T>(serial: S, items: Vec<T>, output: S::Output) -> bool {
    S::collect_then_finish.ensures((serial, items), output)
}

/// `serial` is what converting `consumer` may give.
pub open spec fn converts<K: Consumer>(consumer: K, serial: K::Serial) -> bool {
    K::into_collector.ensures((consumer,), serial)
}

/// Splitting the consumer behind `m` at `index` may give `split` (and leave
/// `*final(m)`).
#[verifier::inline]
pub open spec fn splits_at<K: Consumer>(m: &mut K, index: usize, split: (K, K::Combiner)) -> bool {
    K::split_off_left_at.ensures((m, index), split)
}

/// `cf` is what the hint of `consumer` may say.
pub open spec fn consumer_hints<K: Consumer>(consumer: K, cf: ControlFlow<()>) -> bool {
    K::break_hint.ensures((&consumer,), cf)
}

/// Splitting the consumer behind `m` freely may give `left` (and leave
/// `*final(m)`).
#[verifier::inline]
pub open spec fn splits<K: UnindexedConsumer>(m: &mut K, left: K) -> bool {
    K::split_off_left.ensures((m,), left)
}

/// `combiner` is what `consumer` may give as its combiner.
pub open spec fn gives_combiner<K: UnindexedConsumer>(consumer: K, combiner: K::Combiner) -> bool {
    K::to_combiner.ensures((&consumer,), combiner)
}

/// Combining `right` into the output behind `m` with `combiner` may leave
/// `*final(m)`.
#[verifier::inline]
pub open spec fn combines<B: Combiner<O>, O>(combiner: B, m: &mut O, right: O) -> bool {
    B::combine.ensures((combiner, m, right), ())
}

} // verus!
