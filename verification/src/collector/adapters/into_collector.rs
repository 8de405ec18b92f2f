//! `into_collector()`: a serial collector made of a parallel collector.
//!
//! Items fed serially go through the parallel collector's own cycles: a part
//! is taken for as many items as are known to come, its consumer collects
//! them, and the output is committed back.
use vstd::prelude::*;
use std::ops::ControlFlow;

use crate::collector::plumbing::{
    collects_each, collects_in_order, continues_through, converts, finishes, lemma_continues_through_push, CollectSpec,
    Consumer, SerialCollector, SerialCollectorBase,
};
use crate::collector::{par_finishes, par_hints, ParallelCollectorBase};
use crate::order::reversed;

verus! {

/// A (serial) collector made of a parallel collector.
#[derive(Debug, Clone)]
pub struct IntoCollector<C> {
    par_collector: C,
}

/// Whether a size hint pins the number of items down: its upper bound is
/// known and equals its lower bound.
pub fn size_hint_is_exact(lower: usize, upper: Option<usize>) -> (exact: bool)
    ensures
        exact == (upper == Some(lower)),
{
    match upper {
        Some(upper) => upper == lower,
        None => false,
    }
}

/// Whether a size hint holds of `len` items.
pub open spec fn size_hint_holds(len: nat, lower: usize, upper: Option<usize>) -> bool {
    &&& lower <= len
    &&& (upper matches Some(upper) ==> len <= upper)
}

impl<C> IntoCollector<C> {
    /// The parallel collector.
    pub closed spec fn par_collector(&self) -> C {
        self.par_collector
    }

    /// A serial collector feeding `par_collector`.
    pub fn new(par_collector: C) -> (collector: Self)
        ensures
            collector.par_collector() == par_collector,
    {
        IntoCollector { par_collector }
    }
}

impl<C: ParallelCollectorBase> SerialCollectorBase for IntoCollector<C> {
    type Output = C::Output;

    /// The parallel collector's final output.
    fn finish(self) -> (output: C::Output)
        ensures
            par_finishes(self.par_collector(), output),
    {
        self.par_collector.finish()
    }

    /// The parallel collector's hint.
    fn break_hint(&self) -> (cf: ControlFlow<()>)
        ensures
            par_hints(self.par_collector(), cf),
    {
        self.par_collector.break_hint()
    }
}

/// What the serial collector `serial` may output after collecting `items`
/// and finishing, as its `collect_then_finish` says.
pub open spec fn collects_then_outputs<S: SerialCollector<T>, T>(serial: S, items: Seq<T>, output: S::Output) -> bool {
    ||| exists|after: S| #[trigger] finishes(after, output)
        && exists|cf: ControlFlow<()>| collects_in_order(serial, items, after, cf) || S::batch_spec(serial, items, after, cf)
    ||| S::batch_finish_spec(serial, items, output)
}

/// One cycle of the parallel collector `before` for `items`: parts are taken
/// for their number, the consumer's serial collector collects them all and
/// finishes, and the output is committed, leaving `after` and saying `cf`.
pub open spec fn part_cycle<C: ParallelCollectorBase<IndexedConsumer: Consumer<Serial: SerialCollector<T>>>, T>(before: C, items: Seq<T>, after: C, cf: ControlFlow<()>) -> bool {
    exists|mid: C, parts: (usize, C::IndexedConsumer), serial: <C::IndexedConsumer as Consumer>::Serial, output: <C::IndexedConsumer as Consumer>::Output|
        #![trigger C::parts_spec(before, items.len() as usize, mid, parts), converts(parts.1, serial), collects_then_outputs(serial, items, output)]
        C::parts_spec(before, items.len() as usize, mid, parts) && converts(parts.1, serial)
        && collects_then_outputs(serial, items, output) && C::commit_spec(mid, output, after, cf)
}

/// One cycle of the parallel collector `before` for the single `item`: parts
/// are taken for one item, the consumer's serial collector collects it and
/// finishes, and the output is committed, leaving `after` and saying `cf`.
pub open spec fn item_cycle<C: ParallelCollectorBase<IndexedConsumer: Consumer<Serial: SerialCollector<T>>>, T>(before: C, item: T, after: C, cf: ControlFlow<()>) -> bool {
    exists|mid: C, parts: (usize, C::IndexedConsumer), serial: <C::IndexedConsumer as Consumer>::Serial, collected: <C::IndexedConsumer as Consumer>::Serial, item_cf: ControlFlow<()>, output: <C::IndexedConsumer as Consumer>::Output|
        #![trigger C::parts_spec(before, 1usize, mid, parts), converts(parts.1, serial), <C::IndexedConsumer as Consumer>::Serial::collect_spec(serial, item, collected, item_cf), finishes(collected, output)]
        C::parts_spec(before, 1usize, mid, parts) && converts(parts.1, serial)
        && <C::IndexedConsumer as Consumer>::Serial::collect_spec(serial, item, collected, item_cf) && finishes(collected, output)
        && C::commit_spec(mid, output, after, cf)
}

/// What collecting `items`, of which the first `lower` are known to come,
/// may do to `before`: those go through one cycle; unless its commit says
/// stop, the rest are collected one by one, each through a cycle of its own,
/// stopping right after the first one on which a commit says stop.
pub open spec fn collects_hinted<C: ParallelCollectorBase<IndexedConsumer: Consumer<Serial: SerialCollector<T>>>, T>(before: IntoCollector<C>, items: Seq<T>, lower: int, after: IntoCollector<C>, cf: ControlFlow<()>) -> bool {
    exists|mid: IntoCollector<C>, part_cf: ControlFlow<()>|
        #![trigger part_cycle(before.par_collector(), items.take(lower), mid.par_collector(), part_cf)]
        part_cycle(before.par_collector(), items.take(lower), mid.par_collector(), part_cf)
        && (part_cf is Break ==> after == mid && cf is Break)
        && (part_cf is Continue ==> collects_each(mid, items.skip(lower), after, cf))
}

impl<C: ParallelCollectorBase> IntoCollector<C> {
    /// Feeds the items of one part: a part reserved for `items.len()` items
    /// collects them all (its own collector decides where to stop), and its
    /// output is committed. Returns what the commit says.
    pub fn collect_part<T>(&mut self, items: Vec<T>) -> (cf: ControlFlow<()>)
        where
            C: ParallelCollectorBase<IndexedConsumer: Consumer<Serial: SerialCollector<T>>>,
        ensures
            part_cycle(old(self).par_collector(), items@, final(self).par_collector(), cf),
    {
        let ghost all = items@;
        let parts = self.par_collector.parts(items.len());
        let ghost mid = self.par_collector;
        let (_, consumer) = parts;
        let serial = consumer.into_collector();
        assert(converts(parts.1, serial));
        let output = serial.collect_then_finish(items);
        assert(collects_then_outputs(serial, all, output));
        let cf = self.par_collector.commit(output);
        assert(C::parts_spec(old(self).par_collector(), all.len() as usize, mid, parts));
        assert(C::commit_spec(mid, output, self.par_collector(), cf));
        cf
    }

    /// Collects `items`, of which at least `lower_size_hint` are known to
    /// come: those are fed through one part; the rest are collected one by
    /// one, stopping right after the first one on which the collector
    /// signals a stop. A stop signaled by the first commit skips the rest.
    #[verifier::loop_isolation(false)]
    pub fn collect_many_hinted<T>(&mut self, items: Vec<T>, lower_size_hint: usize) -> (cf: ControlFlow<()>)
        where
            C: ParallelCollectorBase<IndexedConsumer: Consumer<Serial: SerialCollector<T>>>,
        requires
            lower_size_hint <= items@.len(),
        ensures
            collects_hinted(*old(self), items@, lower_size_hint as int, *final(self), cf),
    {
        let ghost all = items@;
        let mut known = items;
        let rest = known.split_off(lower_size_hint);
        assert(known@ =~= all.take(lower_size_hint as int));
        let ghost rest_all = rest@;
        assert(rest_all =~= all.skip(lower_size_hint as int));
        let part_cf = self.collect_part(known);
        let ghost mid = *self;
        if let ControlFlow::Break(()) = part_cf {
            return part_cf;
        }
        let mut rest = reversed(rest);
        let ghost mut done: int = 0;
        while rest.len() > 0
            invariant
                part_cf is Continue,
                rest@.len() + done == rest_all.len(),
                0 <= done <= rest_all.len(),
                forall|j: int| 0 <= j < rest@.len() ==> #[trigger] rest@[j] == rest_all[rest_all.len() - 1 - j],
                continues_through(mid, rest_all.take(done), *self),
            decreases rest.len(),
        {
            let ghost before_item = *self;
            let item = rest.pop().unwrap();
            assert(item == rest_all[done]);
            let cf = self.collect(item);
            assert(Self::collect_spec(before_item, rest_all[done], *self, cf));
            if let ControlFlow::Break(()) = cf {
                assert(collects_each(mid, rest_all, *self, cf));
                return cf;
            }
            proof {
                lemma_continues_through_push(mid, rest_all.take(done), before_item, item, *self, cf);
                assert(rest_all.take(done).push(item) =~= rest_all.take(done + 1));
                done = done + 1;
            }
        }
        assert(rest_all.take(done) =~= rest_all);
        ControlFlow::Continue(())
    }

    /// Collects `items` whose number the size hint `(lower, upper)` bounds,
    /// then finishes. When the hint is exact, all items are fed through one
    /// part; otherwise as [`collect_many_hinted`](Self::collect_many_hinted)
    /// does.
    pub fn collect_then_finish_hinted<T>(self, items: Vec<T>, lower: usize, upper: Option<usize>) -> (output: C::Output)
        where
            C: ParallelCollectorBase<IndexedConsumer: Consumer<Serial: SerialCollector<T>>>,
        requires
            size_hint_holds(items@.len(), lower, upper),
        ensures
            upper == Some(lower) ==> exists|after: C, cf: ControlFlow<()>|
                #![trigger part_cycle(self.par_collector(), items@, after, cf)]
                part_cycle(self.par_collector(), items@, after, cf) && par_finishes(after, output),
            upper != Some(lower) ==> exists|after: Self, cf: ControlFlow<()>|
                #![trigger collects_hinted(self, items@, lower as int, after, cf)]
                collects_hinted(self, items@, lower as int, after, cf) && par_finishes(after.par_collector(), output),
    {
        let ghost all = items@;
        let mut this = self;
        if size_hint_is_exact(lower, upper) {
            let cf = this.collect_part(items);
            let output = this.finish();
            assert(part_cycle(self.par_collector(), all, this.par_collector(), cf));
            return output;
        }
        let cf = this.collect_many_hinted(items, lower);
        let output = this.finish();
        assert(collects_hinted(self, all, lower as int, this, cf));
        output
    }
}

impl<C: ParallelCollectorBase<IndexedConsumer: Consumer<Serial: SerialCollector<T>>>, T> CollectSpec<T> for IntoCollector<C> {
    /// Each item goes through a cycle of the parallel collector of its own.
    open spec fn collect_spec(before: Self, item: T, after: Self, cf: ControlFlow<()>) -> bool {
        item_cycle(before.par_collector(), item, after.par_collector(), cf)
    }
}

impl<C: ParallelCollectorBase<IndexedConsumer: Consumer<Serial: SerialCollector<T>>>, T> SerialCollector<T> for IntoCollector<C> {
    /// All of a batch is known to come: it goes through one cycle, and it
    /// stops exactly when that cycle's commit says stop.
    open spec fn batch_spec(before: Self, items: Seq<T>, after: Self, cf: ControlFlow<()>) -> bool {
        exists|part_cf: ControlFlow<()>| #[trigger] part_cycle(before.par_collector(), items, after.par_collector(), part_cf)
            && (cf is Break <==> part_cf is Break)
    }

    /// All of a batch is known to come: it goes through one cycle, then the
    /// parallel collector finishes.
    open spec fn batch_finish_spec(before: Self, items: Seq<T>, output: C::Output) -> bool {
        exists|after: C, cf: ControlFlow<()>| #[trigger] part_cycle(before.par_collector(), items, after, cf)
            && par_finishes(after, output)
    }

    /// Collects one item through a part of its own, and says what the commit
    /// says.
    fn collect(&mut self, item: T) -> (cf: ControlFlow<()>)
    {
        let parts = self.par_collector.parts(1);
        let ghost mid = self.par_collector;
        let (_, consumer) = parts;
        let mut collector = consumer.into_collector();
        assert(converts(parts.1, collector));
        let ghost serial = collector;
        let item_cf = collector.collect(item);
        assert(<C::IndexedConsumer as Consumer>::Serial::collect_spec(serial, item, collector, item_cf));
        let output = collector.finish();
        assert(finishes(collector, output));
        let cf = self.par_collector.commit(output);
        assert(C::parts_spec(old(self).par_collector(), 1usize, mid, parts));
        assert(C::commit_spec(mid, output, self.par_collector(), cf));
        cf
    }

    /// All of a `Vec`'s items are known to come: they are fed through one
    /// part.
    fn collect_many(&mut self, items: Vec<T>) -> (cf: ControlFlow<()>)
    {
        let ghost all = items@;
        let len = items.len();
        let cf = self.collect_many_hinted(items, len);
        proof {
            assert(all.take(len as int) =~= all);
            assert(all.skip(len as int) =~= Seq::<T>::empty());
        }
        cf
    }

    /// The size of a `Vec` is exact: all items are fed through one part.
    fn collect_then_finish(self, items: Vec<T>) -> (output: C::Output)
    {
        let len = items.len();
        self.collect_then_finish_hinted(items, len, Some(len))
    }
}

} // verus!
