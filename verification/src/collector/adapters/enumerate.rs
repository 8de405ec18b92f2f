//! `enumerate()`: pairs each item with its index, counted over all items fed
//! to the parallel collector. Indexed only: an item's index is where it lands.
use vstd::prelude::*;
use std::ops::ControlFlow;

use crate::collections::linked_list::{IntoParCollector, ListCombiner, ListConsumer, ListSerial};
use super::into_collector::collects_then_outputs;
use crate::collector::feeding::feeds;
use crate::collector::plumbing::{collects_each, Combiner, collects_in_order, continues_through, consumer_hints, converts, finishes, splits_at, hints, Consumer, CollectSpec, SerialCollector, SerialCollectorBase};
use crate::collector::{commits, hands_out, par_finishes, par_hints, ParallelCollectorBase};

verus! {

/// `a + b`, or `usize::MAX` when that overflows.
pub open spec fn sat_add(a: usize, b: usize) -> usize {
    if a + b > usize::MAX { usize::MAX } else { (a + b) as usize }
}

/// A parallel collector that pairs each item with its index.
#[derive(Debug, Clone)]
pub struct Enumerate<C> {
    collector: C,
    idx: usize,
}

/// The consumer of [`Enumerate`]: its first item gets index `start()`.
pub struct EnumerateConsumer<C> {
    consumer: C,
    start: usize,
}

/// The serial collector of an [`EnumerateConsumer`]: hands out consecutive
/// indices.
pub struct EnumerateSerial<S> {
    collector: S,
    idx: usize,
}

impl<C> Enumerate<C> {
    /// The underlying collector.
    pub closed spec fn inner(&self) -> C {
        self.collector
    }

    /// The index of the next item fed in a new cycle.
    pub closed spec fn index(&self) -> usize {
        self.idx
    }

    /// Enumerates from index 0.
    pub fn new(collector: C) -> (enumerate: Self)
        ensures
            enumerate.index() == 0,
            enumerate.inner() == collector,
    {
        Enumerate { collector, idx: 0 }
    }
}

impl<C> EnumerateConsumer<C> {
    /// The index of this consumer's first item.
    pub closed spec fn start(&self) -> usize {
        self.start
    }
}

impl<C> EnumerateConsumer<C> {
    /// The underlying consumer.
    pub closed spec fn inner(&self) -> C {
        self.consumer
    }
}

impl<S> EnumerateSerial<S> {
    /// The underlying serial collector.
    pub closed spec fn inner(&self) -> S {
        self.collector
    }

    /// The index of the next item.
    pub closed spec fn index(&self) -> usize {
        self.idx
    }
}

impl<S: SerialCollectorBase> SerialCollectorBase for EnumerateSerial<S> {
    type Output = S::Output;

    /// The underlying collector's output.
    fn finish(self) -> (output: S::Output)
        ensures
            finishes(self.inner(), output),
    {
        self.collector.finish()
    }

    /// The underlying collector's hint.
    fn break_hint(&self) -> (cf: ControlFlow<()>)
        ensures
            hints(self.inner(), cf),
    {
        self.collector.break_hint()
    }
}

impl<S: SerialCollector<(usize, T)>, T> CollectSpec<T> for EnumerateSerial<S> {
    open spec fn collect_spec(before: Self, item: T, after: Self, cf: ControlFlow<()>) -> bool {
        &&& S::collect_spec(before.inner(), (before.index(), item), after.inner(), cf)
        &&& after.index() == if cf is Break { before.index() } else { before.index().wrapping_add(1) }
    }
}

impl<S: SerialCollector<(usize, T)>, T> SerialCollector<T> for EnumerateSerial<S> {
    /// Forwards the item paired with the next index; the index moves on
    /// unless the underlying collector stopped.
    fn collect(&mut self, item: T) -> (cf: ControlFlow<()>)
        ensures
            cf is Break ==> final(self).index() == old(self).index(),
            cf is Continue ==> final(self).index() == old(self).index().wrapping_add(1),
    {
        let cf = self.collector.collect((self.idx, item));
        assert(S::collect_spec(old(self).inner(), (old(self).index(), item), self.inner(), cf));
        match cf {
            ControlFlow::Break(()) => cf,
            ControlFlow::Continue(()) => {
                self.idx = self.idx.wrapping_add(1);
                cf
            },
        }
    }
}

impl<C: Consumer> Consumer for EnumerateConsumer<C> {
    /// The underlying consumer splits at `index`; the right split starts `index` items later.
    open spec fn split_at_spec(before: Self, index: usize, after: Self, split: (Self, Self::Combiner)) -> bool {
        C::split_at_spec(before.inner(), index, after.inner(), (split.0.inner(), split.1))
            && split.0.start() == before.start() && after.start() == sat_add(before.start(), index)
    }

    type Output = C::Output;

    type Combiner = C::Combiner;

    type Serial = EnumerateSerial<C::Serial>;

    /// A serial collector whose first item gets index `start()`.
    fn into_collector(self) -> (serial: EnumerateSerial<C::Serial>)
        ensures
            serial.index() == self.start(),
            converts(self.inner(), serial.inner()),
    {
        EnumerateSerial { collector: self.consumer.into_collector(), idx: self.start }
    }

    /// The left split keeps the first index; the right one starts `index`
    /// items later.
    fn split_off_left_at(&mut self, index: usize) -> (split: (Self, C::Combiner))
        ensures
            split.0.start() == old(self).start(),
            final(self).start() == sat_add(old(self).start(), index),
            exists|m: &mut C| *m == old(self).inner() && *final(m) == final(self).inner()
                && splits_at(m, index, (split.0.inner(), split.1)),
    {
        let (consumer, combiner) = self.consumer.split_off_left_at(index);
        let start = self.start;
        self.start = self.start.saturating_add(index);
        (EnumerateConsumer { consumer, start }, combiner)
    }

    /// The underlying consumer's hint.
    fn break_hint(&self) -> (cf: ControlFlow<()>)
        ensures
            consumer_hints(self.inner(), cf),
    {
        self.consumer.break_hint()
    }
}

impl<C: ParallelCollectorBase> ParallelCollectorBase for Enumerate<C> {
    type Output = C::Output;

    type IndexedConsumer = EnumerateConsumer<C::IndexedConsumer>;

    /// The underlying collector's parts for `len` items; the consumer starts
    /// at the current index, and the next cycle `len` items later.
    open spec fn parts_spec(before: Self, len: usize, after: Self, parts: (usize, EnumerateConsumer<C::IndexedConsumer>)) -> bool {
        &&& C::parts_spec(before.inner(), len, after.inner(), (parts.0, parts.1.inner()))
        &&& parts.1.start() == before.index()
        &&& after.index() == sat_add(before.index(), len)
    }

    open spec fn commit_spec(before: Self, output: <C::IndexedConsumer as Consumer>::Output, after: Self, cf: ControlFlow<()>) -> bool {
        C::commit_spec(before.inner(), output, after.inner(), cf) && after.index() == before.index()
    }

    /// The underlying collector's final output.
    fn finish(self) -> (output: C::Output)
        ensures
            par_finishes(self.inner(), output),
    {
        self.collector.finish()
    }

    /// The underlying collector's hint.
    fn break_hint(&self) -> (cf: ControlFlow<()>)
        ensures
            par_hints(self.inner(), cf),
    {
        self.collector.break_hint()
    }

    /// The consumer starts at the current index; the next cycle starts `len`
    /// items later, even if fewer are afforded (the rest are skipped).
    fn parts(&mut self, len: usize) -> (parts: (usize, EnumerateConsumer<C::IndexedConsumer>))
        ensures
            parts.1.start() == old(self).index(),
            final(self).index() == sat_add(old(self).index(), len),
            exists|m: &mut C| *m == old(self).inner() && *final(m) == final(self).inner()
                && hands_out(m, len, (parts.0, parts.1.inner())),
    {
        let (actual_len, consumer) = self.collector.parts(len);
        let start = self.idx;
        self.idx = self.idx.saturating_add(len);
        (actual_len, EnumerateConsumer { consumer, start })
    }

    fn commit(&mut self, output: <C::IndexedConsumer as Consumer>::Output) -> (cf: ControlFlow<()>)
        ensures
            final(self).index() == old(self).index(),
            exists|m: &mut C| *m == old(self).inner() && *final(m) == final(self).inner() && commits(m, output, cf),
    {
        self.collector.commit(output)
    }
}

/// `items`, each paired with its index counted from `start`.
pub open spec fn indexed_from<T>(start: int, items: Seq<T>) -> Seq<(usize, T)> {
    Seq::new(items.len(), |j: int| ((start + j) as usize, items[j]))
}

/// Going on through `items`, an enumerating serial collector over a list
/// pushes each item paired with the next index.
pub proof fn lemma_enumerate_list_continues<T>(before: EnumerateSerial<ListSerial<(usize, T)>>, items: Seq<T>, after: EnumerateSerial<ListSerial<(usize, T)>>)
    requires
        continues_through(before, items, after),
        before.index() + items.len() <= usize::MAX,
    ensures
        after.inner().items() == before.inner().items() + indexed_from(before.index() as int, items),
        after.index() == before.index() + items.len(),
    decreases items.len(),
{
    if items.len() == 0 {
        assert(before.inner().items() + indexed_from(before.index() as int, items) =~= before.inner().items());
    } else {
        let (mid, c) = choose|mid: EnumerateSerial<ListSerial<(usize, T)>>, c: ControlFlow<()>|
            #[trigger] EnumerateSerial::<ListSerial<(usize, T)>>::collect_spec(before, items[0], mid, c) && c is Continue
            && continues_through(mid, items.drop_first(), after);
        assert(mid.index() == before.index() + 1);
        lemma_enumerate_list_continues(mid, items.drop_first(), after);
        assert(before.inner().items() + indexed_from(before.index() as int, items)
            =~= before.inner().items().push((before.index(), items[0])) + indexed_from(mid.index() as int, items.drop_first()));
    }
}

/// Items collected in order by an enumerating serial collector over a list
/// reach the list in order, each paired with its index counted from the
/// serial collector's first index; it never stops.
pub proof fn lemma_enumerate_list_pairs<T>(before: EnumerateSerial<ListSerial<(usize, T)>>, items: Seq<T>, after: EnumerateSerial<ListSerial<(usize, T)>>, cf: ControlFlow<()>)
    requires
        collects_in_order(before, items, after, cf),
        before.index() + items.len() <= usize::MAX,
    ensures
        after.inner().items() == before.inner().items() + indexed_from(before.index() as int, items),
        after.index() == before.index() + items.len(),
        cf is Continue,
{
    let hint = choose|hint: ControlFlow<()>| #[trigger] hints(before, hint) && if hint is Break {
        after == before && cf is Break
    } else {
        collects_each(before, items, after, cf)
    };
    assert(hint is Continue);
    if cf is Break {
        let (i, mid) = choose|i: int, mid: EnumerateSerial<ListSerial<(usize, T)>>| 0 <= i < items.len()
            && #[trigger] continues_through(before, items.take(i), mid)
            && EnumerateSerial::<ListSerial<(usize, T)>>::collect_spec(mid, items[i], after, cf);
        assert(false);
    }
    lemma_enumerate_list_continues(before, items, after);
}

/// The serial collector of an enumerating consumer over an empty list,
/// collecting `items` and finishing, outputs them paired with consecutive
/// indices from the consumer's first index.
pub proof fn lemma_enumerate_list_serial_outputs<T>(serial: EnumerateSerial<ListSerial<(usize, T)>>, items: Seq<T>, output: Vec<(usize, T)>)
    requires
        serial.inner().items() == Seq::<(usize, T)>::empty(),
        serial.index() + items.len() <= usize::MAX,
        collects_then_outputs(serial, items, output),
    ensures
        output@ == indexed_from(serial.index() as int, items),
{
    assert(!EnumerateSerial::<ListSerial<(usize, T)>>::batch_finish_spec(serial, items, output));
    let after = choose|a: EnumerateSerial<ListSerial<(usize, T)>>| #[trigger] finishes(a, output)
        && exists|c: ControlFlow<()>| collects_in_order(serial, items, a, c) || EnumerateSerial::<ListSerial<(usize, T)>>::batch_spec(serial, items, a, c);
    let cf = choose|c: ControlFlow<()>| collects_in_order(serial, items, after, c) || EnumerateSerial::<ListSerial<(usize, T)>>::batch_spec(serial, items, after, c);
    assert(!EnumerateSerial::<ListSerial<(usize, T)>>::batch_spec(serial, items, after, cf));
    lemma_enumerate_list_pairs(serial, items, after, cf);
    assert(Seq::<(usize, T)>::empty() + indexed_from(serial.index() as int, items) =~= indexed_from(serial.index() as int, items));
}

/// However a batch is split (at any indices, nested any number of times),
/// the outputs of an enumerating consumer over a list, combined, hold the
/// batch in order, each item paired with its index counted from the
/// consumer's first index.
pub proof fn lemma_enumerate_list_feeds<T>(depth: nat, consumer: EnumerateConsumer<ListConsumer<(usize, T)>>, items: Seq<T>, output: Vec<(usize, T)>)
    requires
        feeds(depth, consumer, items, output),
        consumer.start() + items.len() <= usize::MAX,
    ensures
        output@ == indexed_from(consumer.start() as int, items),
    decreases depth,
{
    if exists|serial: <EnumerateConsumer<ListConsumer<(usize, T)>> as Consumer>::Serial| #[trigger] converts(consumer, serial) && collects_then_outputs(serial, items, output) {
        let serial = choose|serial: <EnumerateConsumer<ListConsumer<(usize, T)>> as Consumer>::Serial| #[trigger] converts(consumer, serial) && collects_then_outputs(serial, items, output);
        lemma_enumerate_list_serial_outputs(serial, items, output);
    } else {
        let (index, right, left, combiner, left_out, right_out) = choose|index: usize, right: EnumerateConsumer<ListConsumer<(usize, T)>>, left: EnumerateConsumer<ListConsumer<(usize, T)>>, combiner: ListCombiner, left_out: Vec<(usize, T)>, right_out: Vec<(usize, T)>|
            #![trigger EnumerateConsumer::<ListConsumer<(usize, T)>>::split_at_spec(consumer, index, right, (left, combiner)), combiner.combine_spec(left_out, right_out, output)]
            index <= items.len() && EnumerateConsumer::<ListConsumer<(usize, T)>>::split_at_spec(consumer, index, right, (left, combiner))
            && feeds((depth - 1) as nat, left, items.take(index as int), left_out)
            && feeds((depth - 1) as nat, right, items.skip(index as int), right_out)
            && combiner.combinable(left_out, right_out)
            && combiner.combine_spec(left_out, right_out, output);
        lemma_enumerate_list_feeds((depth - 1) as nat, left, items.take(index as int), left_out);
        lemma_enumerate_list_feeds((depth - 1) as nat, right, items.skip(index as int), right_out);
        assert(indexed_from(consumer.start() as int, items)
            =~= indexed_from(consumer.start() as int, items.take(index as int)) + indexed_from(consumer.start() + index, items.skip(index as int)));
    }
}

/// One indexed cycle of `enumerate` over a list collector, however the batch
/// is split: the list gets the batch in order, each item paired with its
/// index counted from the collector's index, which then moves on by `len`.
pub proof fn lemma_enumerate_list_cycle<T>(
    depth: nat,
    before: Enumerate<IntoParCollector<(usize, T)>>,
    len: usize,
    mid: Enumerate<IntoParCollector<(usize, T)>>,
    parts: (usize, EnumerateConsumer<ListConsumer<(usize, T)>>),
    items: Seq<T>,
    output: Vec<(usize, T)>,
    after: Enumerate<IntoParCollector<(usize, T)>>,
    cf: ControlFlow<()>,
)
    requires
        before.index() + items.len() <= usize::MAX,
        Enumerate::<IntoParCollector<(usize, T)>>::parts_spec(before, len, mid, parts),
        feeds(depth, parts.1, items, output),
        Enumerate::<IntoParCollector<(usize, T)>>::commit_spec(mid, output, after, cf),
    ensures
        after.inner().items() == before.inner().items() + indexed_from(before.index() as int, items),
        after.index() == sat_add(before.index(), len),
{
    lemma_enumerate_list_feeds(depth, parts.1, items, output);
}

} // verus!
