//! A parallel collector that appends the collected items to a list, keeping
//! the order of the items.
use vstd::prelude::*;
use std::ops::ControlFlow;

use crate::collector::adapters::into_collector::collects_then_outputs;
use crate::collector::feeding::{feeds, feeds_unindexed};
use crate::collector::plumbing::{
    collects_each, collects_in_order, continues_through, converts, finishes, gives_combiner, hints, Combiner, Consumer, CollectSpec,
    SerialCollector, SerialCollectorBase, UnindexedConsumer,
};
use crate::collector::{
    IntoParallelCollectorBase, ParallelCollectorBase,
    UnindexedParallelCollectorBase,
};

verus! {

/// Whatever index a batch is split at, the two splits' lists, combined and
/// committed, append the batch to the list in order: the same as collecting
/// it serially.
pub proof fn lemma_split_keeps_order<T>(list: Seq<T>, batch: Seq<T>, at: int)
    requires
        0 <= at <= batch.len(),
    ensures
        list + (batch.take(at) + batch.skip(at)) == list + batch,
{
    assert(batch.take(at) + batch.skip(at) =~= batch);
}

/// A parallel collector that pushes collected items to the back of a list.
/// Its output is the list.
#[derive(Debug, Clone)]
pub struct IntoParCollector<T> {
    list: Vec<T>,
}

/// The consumer of [`IntoParCollector`]; each serial part starts with an
/// empty list.
pub struct ListConsumer<T> {
    _marker: std::marker::PhantomData<T>,
}

/// The combiner of [`ListConsumer`]: appends the right list to the left one.
pub struct ListCombiner {
    _unit: (),
}

/// The serial collector of a [`ListConsumer`]: pushes each item to the back.
#[derive(Clone)]
pub struct ListSerial<T> {
    items: Vec<T>,
}

impl<T> IntoParCollector<T> {
    /// The items of the list so far.
    pub closed spec fn items(&self) -> Seq<T> {
        self.list@
    }

    /// A parallel collector starting from the given list.
    pub fn new(list: Vec<T>) -> (collector: Self)
        ensures
            collector.items() == list@,
    {
        IntoParCollector { list }
    }

    /// A parallel collector starting from an empty list.
    pub fn default() -> (collector: Self)
        ensures
            collector.items() == Seq::<T>::empty(),
    {
        IntoParCollector { list: Vec::new() }
    }
}

impl<T> ListSerial<T> {
    /// The items collected so far.
    pub closed spec fn items(&self) -> Seq<T> {
        self.items@
    }

    /// A serial collector that has collected nothing.
    pub fn new() -> (serial: Self)
        ensures
            serial.items() == Seq::<T>::empty(),
    {
        ListSerial { items: Vec::new() }
    }

}

impl<T> SerialCollectorBase for ListSerial<T> {
    type Output = Vec<T>;

    /// The list of the collected items.
    fn finish(self) -> (list: Vec<T>)
        ensures
            list@ == self.items(),
    {
        self.items
    }

    fn break_hint(&self) -> (cf: ControlFlow<()>)
        ensures
            cf is Continue,
    {
        ControlFlow::Continue(())
    }
}

impl<T> CollectSpec<T> for ListSerial<T> {
    open spec fn collect_spec(before: Self, item: T, after: Self, cf: ControlFlow<()>) -> bool {
        after.items() == before.items().push(item) && cf is Continue
    }
}

impl<T> SerialCollector<T> for ListSerial<T> {
    /// A batch is appended at once.
    open spec fn batch_spec(before: Self, items: Seq<T>, after: Self, cf: ControlFlow<()>) -> bool {
        after.items() == before.items() + items && cf is Continue
    }

    /// Pushes all `items` to the back, in order; it never stops.
    fn collect_many(&mut self, items: Vec<T>) -> (cf: ControlFlow<()>)
        ensures
            final(self).items() == old(self).items() + items@,
            cf is Continue,
    {
        let mut items = items;
        self.items.append(&mut items);
        ControlFlow::Continue(())
    }

    /// Pushes `item` to the back; it never stops.
    fn collect(&mut self, item: T) -> (cf: ControlFlow<()>)
        ensures
            final(self).items() == old(self).items().push(item),
            cf is Continue,
    {
        self.items.push(item);
        ControlFlow::Continue(())
    }
}

impl<T> ListConsumer<T> {
    pub(crate) fn new() -> Self {
        ListConsumer { _marker: std::marker::PhantomData }
    }
}

impl<T> Combiner<Vec<T>> for ListCombiner {
    /// The right list goes after the left one.
    open spec fn combine_spec(&self, left: Vec<T>, right: Vec<T>, combined: Vec<T>) -> bool {
        combined@ == left@ + right@
    }

    fn combine(self, left: &mut Vec<T>, right: Vec<T>)
        ensures
            final(left)@ == old(left)@ + right@,
    {
        let mut right = right;
        left.append(&mut right);
    }
}

impl<T> Consumer for ListConsumer<T> {
    type Output = Vec<T>;

    type Combiner = ListCombiner;

    type Serial = ListSerial<T>;

    /// A serial collector with an empty list.
    fn into_collector(self) -> (serial: ListSerial<T>)
        ensures
            serial.items() == Seq::<T>::empty(),
    {
        ListSerial { items: Vec::new() }
    }

    fn split_off_left_at(&mut self, index: usize) -> (Self, ListCombiner) {
        (self.split_off_left(), self.to_combiner())
    }

    fn break_hint(&self) -> (cf: ControlFlow<()>)
        ensures
            cf is Continue,
    {
        ControlFlow::Continue(())
    }
}

impl<T> UnindexedConsumer for ListConsumer<T> {
    /// Splits hold nothing: any split is as good as any other.
    open spec fn split_spec(before: Self, after: Self, left: Self) -> bool {
        true
    }

    fn split_off_left(&mut self) -> Self {
        ListConsumer::new()
    }

    fn to_combiner(&self) -> ListCombiner {
        ListCombiner { _unit: () }
    }
}

impl<T> ParallelCollectorBase for IntoParCollector<T> {
    type Output = Vec<T>;

    type IndexedConsumer = ListConsumer<T>;

    open spec fn parts_spec(before: Self, len: usize, after: Self, parts: (usize, ListConsumer<T>)) -> bool {
        parts.0 == len && after.items() == before.items()
    }

    open spec fn commit_spec(before: Self, output: Vec<T>, after: Self, cf: ControlFlow<()>) -> bool {
        after.items() == before.items() + output@ && cf is Continue
    }

    fn finish(self) -> (list: Vec<T>)
        ensures
            list@ == self.items(),
    {
        self.list
    }

    fn break_hint(&self) -> (cf: ControlFlow<()>)
        ensures
            cf is Continue,
    {
        ControlFlow::Continue(())
    }

    fn parts(&mut self, len: usize) -> (parts: (usize, ListConsumer<T>))
        ensures
            parts.0 == len,
            final(self).items() == old(self).items(),
    {
        (len, ListConsumer::new())
    }

    fn commit(&mut self, output: Vec<T>) -> (cf: ControlFlow<()>)
        ensures
            final(self).items() == old(self).items() + output@,
            cf is Continue,
    {
        let mut output = output;
        self.list.append(&mut output);
        ControlFlow::Continue(())
    }
}

impl<T> UnindexedParallelCollectorBase for IntoParCollector<T> {
    type UnindexedParts = ListConsumer<T>;

    open spec fn parts_unindexed_spec(before: Self, after: Self, consumer: ListConsumer<T>) -> bool {
        after.items() == before.items()
    }

    open spec fn commit_unindexed_spec(before: Self, output: Vec<T>, after: Self, cf: ControlFlow<()>) -> bool {
        after.items() == before.items() + output@ && cf is Continue
    }

    fn parts_unindexed(&mut self) -> (consumer: ListConsumer<T>)
        ensures
            final(self).items() == old(self).items(),
    {
        ListConsumer::new()
    }

    fn commit_unindexed(&mut self, output: Vec<T>) -> (cf: ControlFlow<()>)
        ensures
            final(self).items() == old(self).items() + output@,
            cf is Continue,
    {
        let mut output = output;
        self.list.append(&mut output);
        ControlFlow::Continue(())
    }
}

impl<T> IntoParallelCollectorBase for Vec<T> {
    type Output = Vec<T>;

    type IntoParCollector = IntoParCollector<T>;

    fn into_par_collector(self) -> (collector: IntoParCollector<T>)
        ensures
            collector.items() == self@,
    {
        IntoParCollector::new(self)
    }
}

/// A parallel collector that pushes collected items to the back of a
/// borrowed list. Its output is the borrowed list.
#[derive(Debug)]
pub struct ParCollectorMut<'a, T> {
    list: &'a mut Vec<T>,
}

impl<'a, T> ParCollectorMut<'a, T> {
    /// The items of the borrowed list so far.
    pub closed spec fn items(&self) -> Seq<T> {
        self.list@
    }

    /// A parallel collector pushing to the back of `list`.
    pub fn new(list: &'a mut Vec<T>) -> (collector: Self)
        ensures
            collector.items() == old(list)@,
    {
        ParCollectorMut { list }
    }
}

impl<'a, T> ParallelCollectorBase for ParCollectorMut<'a, T> {
    type Output = &'a mut Vec<T>;

    type IndexedConsumer = ListConsumer<T>;

    open spec fn parts_spec(before: Self, len: usize, after: Self, parts: (usize, ListConsumer<T>)) -> bool {
        parts.0 == len && after.items() == before.items()
    }

    open spec fn commit_spec(before: Self, output: Vec<T>, after: Self, cf: ControlFlow<()>) -> bool {
        after.items() == before.items() + output@ && cf is Continue
    }

    /// The borrowed list.
    fn finish(self) -> (list: &'a mut Vec<T>)
        ensures
            list@ == self.items(),
    {
        self.list
    }

    fn break_hint(&self) -> (cf: ControlFlow<()>)
        ensures
            cf is Continue,
    {
        ControlFlow::Continue(())
    }

    fn parts(&mut self, len: usize) -> (parts: (usize, ListConsumer<T>))
        ensures
            parts.0 == len,
            final(self).items() == old(self).items(),
    {
        (len, ListConsumer::new())
    }

    fn commit(&mut self, output: Vec<T>) -> (cf: ControlFlow<()>)
        ensures
            final(self).items() == old(self).items() + output@,
            cf is Continue,
    {
        let mut output = output;
        self.list.append(&mut output);
        ControlFlow::Continue(())
    }
}

impl<'a, T> UnindexedParallelCollectorBase for ParCollectorMut<'a, T> {
    type UnindexedParts = ListConsumer<T>;

    open spec fn parts_unindexed_spec(before: Self, after: Self, consumer: ListConsumer<T>) -> bool {
        after.items() == before.items()
    }

    open spec fn commit_unindexed_spec(before: Self, output: Vec<T>, after: Self, cf: ControlFlow<()>) -> bool {
        after.items() == before.items() + output@ && cf is Continue
    }

    fn parts_unindexed(&mut self) -> (consumer: ListConsumer<T>)
        ensures
            final(self).items() == old(self).items(),
    {
        ListConsumer::new()
    }

    fn commit_unindexed(&mut self, output: Vec<T>) -> (cf: ControlFlow<()>)
        ensures
            final(self).items() == old(self).items() + output@,
            cf is Continue,
    {
        let mut output = output;
        self.list.append(&mut output);
        ControlFlow::Continue(())
    }
}

impl<'a, T> IntoParallelCollectorBase for &'a mut Vec<T> {
    type Output = &'a mut Vec<T>;

    type IntoParCollector = ParCollectorMut<'a, T>;

    fn into_par_collector(self) -> (collector: ParCollectorMut<'a, T>)
        ensures
            collector.items() == old(self)@,
    {
        ParCollectorMut::new(self)
    }
}

/// Going on through `items`, a list's serial collector pushes each of them.
pub proof fn lemma_list_continues<T>(before: ListSerial<T>, items: Seq<T>, after: ListSerial<T>)
    requires
        continues_through(before, items, after),
    ensures
        after.items() == before.items() + items,
    decreases items.len(),
{
    if items.len() == 0 {
        assert(before.items() + items =~= before.items());
    } else {
        let (mid, c) = choose|mid: ListSerial<T>, c: ControlFlow<()>| #[trigger] ListSerial::<T>::collect_spec(before, items[0], mid, c)
            && c is Continue && continues_through(mid, items.drop_first(), after);
        lemma_list_continues(mid, items.drop_first(), after);
        assert(before.items() + items =~= before.items().push(items[0]) + items.drop_first());
    }
}

/// A list's serial collector that collects `items` and finishes outputs the
/// list it had with the items pushed, in order.
pub proof fn lemma_list_serial_outputs<T>(serial: ListSerial<T>, items: Seq<T>, output: Vec<T>)
    requires
        collects_then_outputs(serial, items, output),
    ensures
        output@ == serial.items() + items,
{
    assert(!ListSerial::<T>::batch_finish_spec(serial, items, output));
    let after = choose|a: ListSerial<T>| #[trigger] finishes(a, output)
        && exists|c: ControlFlow<()>| collects_in_order(serial, items, a, c) || ListSerial::<T>::batch_spec(serial, items, a, c);
    let cf = choose|c: ControlFlow<()>| collects_in_order(serial, items, after, c) || ListSerial::<T>::batch_spec(serial, items, after, c);
    if !ListSerial::<T>::batch_spec(serial, items, after, cf) {
        let hint = choose|hint: ControlFlow<()>| #[trigger] hints(serial, hint) && if hint is Break {
            after == serial && cf is Break
        } else {
            collects_each(serial, items, after, cf)
        };
        if cf is Continue {
            lemma_list_continues(serial, items, after);
        } else {
            let (i, mid) = choose|i: int, mid: ListSerial<T>| 0 <= i < items.len()
                && #[trigger] continues_through(serial, items.take(i), mid)
                && ListSerial::<T>::collect_spec(mid, items[i], after, cf);
        }
    }
}

/// However a batch is split (at any indices, nested any number of times),
/// the list consumers' outputs, combined, hold the batch in order.
pub proof fn lemma_list_feeds<T>(depth: nat, consumer: ListConsumer<T>, items: Seq<T>, output: Vec<T>)
    requires
        feeds(depth, consumer, items, output),
    ensures
        output@ == items,
    decreases depth,
{
    if exists|serial: ListSerial<T>| #[trigger] converts(consumer, serial) && collects_then_outputs(serial, items, output) {
        let serial = choose|serial: ListSerial<T>| #[trigger] converts(consumer, serial) && collects_then_outputs(serial, items, output);
        lemma_list_serial_outputs(serial, items, output);
        assert(Seq::<T>::empty() + items =~= items);
    } else {
        let (index, right, left, combiner, left_out, right_out) = choose|index: usize, right: ListConsumer<T>, left: ListConsumer<T>, combiner: ListCombiner, left_out: Vec<T>, right_out: Vec<T>|
            #![trigger ListConsumer::<T>::split_at_spec(consumer, index, right, (left, combiner)), combiner.combine_spec(left_out, right_out, output)]
            index <= items.len() && ListConsumer::<T>::split_at_spec(consumer, index, right, (left, combiner))
            && feeds((depth - 1) as nat, left, items.take(index as int), left_out)
            && feeds((depth - 1) as nat, right, items.skip(index as int), right_out)
            && combiner.combinable(left_out, right_out)
            && combiner.combine_spec(left_out, right_out, output);
        lemma_list_feeds((depth - 1) as nat, left, items.take(index as int), left_out);
        lemma_list_feeds((depth - 1) as nat, right, items.skip(index as int), right_out);
        assert(items.take(index as int) + items.skip(index as int) =~= items);
    }
}

/// However a batch is split freely (nested any number of times), the list
/// consumers' outputs, combined, hold the batch in order.
pub proof fn lemma_list_feeds_unindexed<T>(depth: nat, consumer: ListConsumer<T>, items: Seq<T>, output: Vec<T>)
    requires
        feeds_unindexed(depth, consumer, items, output),
    ensures
        output@ == items,
    decreases depth,
{
    if exists|serial: <ListConsumer<T> as Consumer>::Serial| #[trigger] converts(consumer, serial) && collects_then_outputs(serial, items, output) {
        let serial = choose|serial: <ListConsumer<T> as Consumer>::Serial| #[trigger] converts(consumer, serial) && collects_then_outputs(serial, items, output);
        lemma_list_serial_outputs(serial, items, output);
        assert(Seq::<T>::empty() + items =~= items);
    } else {
        let (at, right, left, combiner, left_out, right_out) = choose|at: int, right: ListConsumer<T>, left: ListConsumer<T>, combiner: ListCombiner, left_out: Vec<T>, right_out: Vec<T>|
            #![trigger ListConsumer::<T>::split_spec(consumer, right, left), items.take(at), gives_combiner(consumer, combiner), combiner.combine_spec(left_out, right_out, output)]
            0 <= at <= items.len() && gives_combiner(consumer, combiner) && ListConsumer::<T>::split_spec(consumer, right, left)
            && feeds_unindexed((depth - 1) as nat, left, items.take(at), left_out)
            && feeds_unindexed((depth - 1) as nat, right, items.skip(at), right_out)
            && combiner.combinable(left_out, right_out)
            && combiner.combine_spec(left_out, right_out, output);
        lemma_list_feeds_unindexed((depth - 1) as nat, left, items.take(at), left_out);
        lemma_list_feeds_unindexed((depth - 1) as nat, right, items.skip(at), right_out);
        assert(items.take(at) + items.skip(at) =~= items);
    }
}

/// A cycle of the list collector, on its indexed path, however the batch is
/// split: all `len` items are afforded, the batch is appended in order, and
/// it never stops.
pub proof fn lemma_list_cycle<T>(
    depth: nat,
    before: IntoParCollector<T>,
    len: usize,
    mid: IntoParCollector<T>,
    parts: (usize, ListConsumer<T>),
    items: Seq<T>,
    output: Vec<T>,
    after: IntoParCollector<T>,
    cf: ControlFlow<()>,
)
    requires
        IntoParCollector::<T>::parts_spec(before, len, mid, parts),
        feeds(depth, parts.1, items, output),
        IntoParCollector::<T>::commit_spec(mid, output, after, cf),
    ensures
        parts.0 == len,
        after.items() == before.items() + items,
        cf is Continue,
{
    lemma_list_feeds(depth, parts.1, items, output);
}

/// A cycle of the list collector, on its unindexed path, however the batch
/// is split: the batch is appended in order, and it never stops.
pub proof fn lemma_list_cycle_unindexed<T>(
    depth: nat,
    before: IntoParCollector<T>,
    mid: IntoParCollector<T>,
    consumer: ListConsumer<T>,
    items: Seq<T>,
    output: Vec<T>,
    after: IntoParCollector<T>,
    cf: ControlFlow<()>,
)
    requires
        IntoParCollector::<T>::parts_unindexed_spec(before, mid, consumer),
        feeds_unindexed(depth, consumer, items, output),
        IntoParCollector::<T>::commit_unindexed_spec(mid, output, after, cf),
    ensures
        after.items() == before.items() + items,
        cf is Continue,
{
    lemma_list_feeds_unindexed(depth, consumer, items, output);
}

} // verus!
