//! `tee()`: both collectors collect the same item, copied for the first.
use vstd::prelude::*;

use std::ops::ControlFlow;

use super::fuse::{FuseConsumer, FuseSerial};
use super::into_collector::collects_then_outputs;
use crate::collector::feeding::feeds;
use crate::collections::linked_list::{IntoParCollector, ListCombiner, ListConsumer, ListSerial};
use super::tee_base::{TeeBase, TeeCombiner, TeeConsumer, TeeSerial, Teer};
use crate::collector::plumbing::{
    collects_all, collects_each, finishes, converts, Combiner, Consumer, collects_in_order, continues_through, hints, lemma_collects_all_concat,
    lemma_collects_all_push, CollectSpec, SerialCollector,
};
use crate::collector::ParallelCollectorBase;

verus! {

/// A pair of parallel collectors where the first collects copies of the items.
pub type Tee<C1, C2> = TeeBase<C1, C2, CopyTeer>;

/// Passes a copy of each item down to the first collector.
#[derive(Clone, Copy)]
pub struct CopyTeer;

impl<T: Copy> Teer<T> for CopyTeer {
    fn item_is_copy(&self, item: &T) -> (b: bool)
        ensures
            b,
    {
        true
    }

    /// A copy of the item.
    fn pass_down(&mut self, item: &T) -> (copy: T)
        ensures
            copy == *item,
    {
        *item
    }
}

/// Tees `collector1` and `collector2`; the first collects copies.
pub fn tee<C1: ParallelCollectorBase, C2: ParallelCollectorBase>(collector1: C1, collector2: C2) -> (tee: Tee<C1, C2>)
    ensures
        tee.first().inner() == collector1,
        tee.second().inner() == collector2,
{
    TeeBase::new(collector1, collector2, CopyTeer)
}

/// A stopped fused serial collector collects any items without a change.
pub proof fn lemma_stopped_fuse_collects_all<S: SerialCollector<T>, T>(fuse: FuseSerial<S>, items: Seq<T>)
    requires
        fuse.hint() is Break,
    ensures
        collects_all(fuse, items, fuse),
    decreases items.len(),
{
    if items.len() > 0 {
        assert(FuseSerial::<S>::collect_spec(fuse, items[0], fuse, fuse.hint()));
        lemma_stopped_fuse_collects_all(fuse, items.drop_first());
    }
}

/// While a tee of fused serial collectors goes on, each of them collects
/// every item.
pub proof fn lemma_tee_continues<S1: SerialCollector<T>, S2: SerialCollector<T>, T: Copy>(
    before: TeeSerial<FuseSerial<S1>, FuseSerial<S2>, CopyTeer>,
    items: Seq<T>,
    after: TeeSerial<FuseSerial<S1>, FuseSerial<S2>, CopyTeer>,
)
    requires
        continues_through(before, items, after),
    ensures
        collects_all(before.first(), items, after.first()),
        collects_all(before.second(), items, after.second()),
    decreases items.len(),
{
    if items.len() > 0 {
        let (mid, c) = choose|mid: TeeSerial<FuseSerial<S1>, FuseSerial<S2>, CopyTeer>, c: ControlFlow<()>|
            #[trigger] TeeSerial::<FuseSerial<S1>, FuseSerial<S2>, CopyTeer>::collect_spec(before, items[0], mid, c)
            && c is Continue && continues_through(mid, items.drop_first(), after);
        lemma_tee_continues(mid, items.drop_first(), after);
    }
}

/// Each fused serial collector of a tee collects every item fed to the tee
/// in order, whether or not the other has stopped (a stopped one keeps its
/// state); the tee stops only once both have stopped.
pub proof fn lemma_tee_each_side_collects_all<S1: SerialCollector<T>, S2: SerialCollector<T>, T: Copy>(
    before: TeeSerial<FuseSerial<S1>, FuseSerial<S2>, CopyTeer>,
    items: Seq<T>,
    after: TeeSerial<FuseSerial<S1>, FuseSerial<S2>, CopyTeer>,
    cf: ControlFlow<()>,
)
    requires
        collects_in_order(before, items, after, cf),
    ensures
        collects_all(before.first(), items, after.first()),
        collects_all(before.second(), items, after.second()),
        cf is Break ==> after.first().hint() is Break && after.second().hint() is Break,
{
    let hint = choose|hint: ControlFlow<()>| #[trigger] hints(before, hint) && if hint is Break {
        after == before && cf is Break
    } else {
        collects_each(before, items, after, cf)
    };
    if hint is Break {
        lemma_stopped_fuse_collects_all(before.first(), items);
        lemma_stopped_fuse_collects_all(before.second(), items);
    } else if cf is Continue {
        lemma_tee_continues(before, items, after);
    } else {
        let (i, mid) = choose|i: int, mid: TeeSerial<FuseSerial<S1>, FuseSerial<S2>, CopyTeer>| 0 <= i < items.len()
            && #[trigger] continues_through(before, items.take(i), mid)
            && TeeSerial::<FuseSerial<S1>, FuseSerial<S2>, CopyTeer>::collect_spec(mid, items[i], after, cf);
        lemma_tee_continues(before, items.take(i), mid);
        lemma_collects_all_push(before.first(), items.take(i), mid.first(), items[i], after.first(),
            choose|c1: ControlFlow<()>| #[trigger] FuseSerial::<S1>::collect_spec(mid.first(), items[i], after.first(), c1));
        lemma_collects_all_push(before.second(), items.take(i), mid.second(), items[i], after.second(),
            choose|c2: ControlFlow<()>| #[trigger] FuseSerial::<S2>::collect_spec(mid.second(), items[i], after.second(), c2));
        lemma_stopped_fuse_collects_all(after.first(), items.skip(i + 1));
        lemma_stopped_fuse_collects_all(after.second(), items.skip(i + 1));
        lemma_collects_all_concat(before.first(), items.take(i).push(items[i]), after.first(), items.skip(i + 1), after.first());
        lemma_collects_all_concat(before.second(), items.take(i).push(items[i]), after.second(), items.skip(i + 1), after.second());
        assert(items.take(i).push(items[i]) + items.skip(i + 1) =~= items);
    }
}

/// A fused serial collector over a list that has not stopped pushes every
/// item it collects, and never stops.
pub proof fn lemma_fused_list_collects_all<T>(before: FuseSerial<ListSerial<T>>, items: Seq<T>, after: FuseSerial<ListSerial<T>>)
    requires
        collects_all(before, items, after),
        before.hint() is Continue,
    ensures
        after.inner().items() == before.inner().items() + items,
        after.hint() is Continue,
    decreases items.len(),
{
    if items.len() == 0 {
        assert(before.inner().items() + items =~= before.inner().items());
    } else {
        let (mid, c) = choose|mid: FuseSerial<ListSerial<T>>, c: ControlFlow<()>|
            #[trigger] FuseSerial::<ListSerial<T>>::collect_spec(before, items[0], mid, c)
            && collects_all(mid, items.drop_first(), after);
        lemma_fused_list_collects_all(mid, items.drop_first(), after);
        assert(before.inner().items() + items =~= before.inner().items().push(items[0]) + items.drop_first());
    }
}

/// The serial collector of a tee of two list consumers, neither stopped,
/// collecting `items` and finishing, outputs both lists with all the items
/// pushed, in order.
pub proof fn lemma_tee_list_serial_outputs<T: Copy>(serial: TeeSerial<FuseSerial<ListSerial<T>>, FuseSerial<ListSerial<T>>, CopyTeer>, items: Seq<T>, output: (Vec<T>, Vec<T>))
    requires
        serial.first().hint() is Continue,
        serial.second().hint() is Continue,
        collects_then_outputs(serial, items, output),
    ensures
        output.0@ == serial.first().inner().items() + items,
        output.1@ == serial.second().inner().items() + items,
{
    assert(!TeeSerial::<FuseSerial<ListSerial<T>>, FuseSerial<ListSerial<T>>, CopyTeer>::batch_finish_spec(serial, items, output));
    let after = choose|a: TeeSerial<FuseSerial<ListSerial<T>>, FuseSerial<ListSerial<T>>, CopyTeer>| #[trigger] finishes(a, output)
        && exists|c: ControlFlow<()>| collects_in_order(serial, items, a, c) || TeeSerial::<FuseSerial<ListSerial<T>>, FuseSerial<ListSerial<T>>, CopyTeer>::batch_spec(serial, items, a, c);
    let cf = choose|c: ControlFlow<()>| collects_in_order(serial, items, after, c) || TeeSerial::<FuseSerial<ListSerial<T>>, FuseSerial<ListSerial<T>>, CopyTeer>::batch_spec(serial, items, after, c);
    assert(!TeeSerial::<FuseSerial<ListSerial<T>>, FuseSerial<ListSerial<T>>, CopyTeer>::batch_spec(serial, items, after, cf));
    lemma_tee_each_side_collects_all(serial, items, after, cf);
    lemma_fused_list_collects_all(serial.first(), items, after.first());
    lemma_fused_list_collects_all(serial.second(), items, after.second());
}

/// However a batch is split (at any indices, nested any number of times),
/// the outputs of a tee of two list consumers, neither stopped, combined,
/// hold the batch in order on each side.
pub proof fn lemma_tee_list_feeds<T: Copy>(depth: nat, consumer: TeeConsumer<FuseConsumer<ListConsumer<T>>, FuseConsumer<ListConsumer<T>>, CopyTeer>, items: Seq<T>, output: (Vec<T>, Vec<T>))
    requires
        feeds(depth, consumer, items, output),
        consumer.first().hint() is Continue,
        consumer.second().hint() is Continue,
    ensures
        output.0@ == items,
        output.1@ == items,
    decreases depth,
{
    if exists|serial: <TeeConsumer<FuseConsumer<ListConsumer<T>>, FuseConsumer<ListConsumer<T>>, CopyTeer> as Consumer>::Serial| #[trigger] converts(consumer, serial) && collects_then_outputs(serial, items, output) {
        let serial = choose|serial: <TeeConsumer<FuseConsumer<ListConsumer<T>>, FuseConsumer<ListConsumer<T>>, CopyTeer> as Consumer>::Serial| #[trigger] converts(consumer, serial) && collects_then_outputs(serial, items, output);
        lemma_tee_list_serial_outputs(serial, items, output);
        assert(Seq::<T>::empty() + items =~= items);
    } else {
        let (index, right, left, combiner, left_out, right_out) = choose|index: usize, right: TeeConsumer<FuseConsumer<ListConsumer<T>>, FuseConsumer<ListConsumer<T>>, CopyTeer>, left: TeeConsumer<FuseConsumer<ListConsumer<T>>, FuseConsumer<ListConsumer<T>>, CopyTeer>, combiner: TeeCombiner<ListCombiner, ListCombiner>, left_out: (Vec<T>, Vec<T>), right_out: (Vec<T>, Vec<T>)|
            #![trigger TeeConsumer::<FuseConsumer<ListConsumer<T>>, FuseConsumer<ListConsumer<T>>, CopyTeer>::split_at_spec(consumer, index, right, (left, combiner)), combiner.combine_spec(left_out, right_out, output)]
            index <= items.len() && TeeConsumer::<FuseConsumer<ListConsumer<T>>, FuseConsumer<ListConsumer<T>>, CopyTeer>::split_at_spec(consumer, index, right, (left, combiner))
            && feeds((depth - 1) as nat, left, items.take(index as int), left_out)
            && feeds((depth - 1) as nat, right, items.skip(index as int), right_out)
            && combiner.combinable(left_out, right_out)
            && combiner.combine_spec(left_out, right_out, output);
        lemma_tee_list_feeds((depth - 1) as nat, left, items.take(index as int), left_out);
        lemma_tee_list_feeds((depth - 1) as nat, right, items.skip(index as int), right_out);
        assert(items.take(index as int) + items.skip(index as int) =~= items);
    }
}

/// One indexed cycle of a tee of two list collectors, neither stopped,
/// however the batch is split: each list gets the whole batch, in order.
pub proof fn lemma_tee_list_cycle<T: Copy>(
    depth: nat,
    before: Tee<IntoParCollector<T>, IntoParCollector<T>>,
    len: usize,
    mid: Tee<IntoParCollector<T>, IntoParCollector<T>>,
    parts: (usize, TeeConsumer<FuseConsumer<ListConsumer<T>>, FuseConsumer<ListConsumer<T>>, CopyTeer>),
    items: Seq<T>,
    output: (Vec<T>, Vec<T>),
    after: Tee<IntoParCollector<T>, IntoParCollector<T>>,
    cf: ControlFlow<()>,
)
    requires
        before.first().hint() is Continue,
        before.second().hint() is Continue,
        Tee::<IntoParCollector<T>, IntoParCollector<T>>::parts_spec(before, len, mid, parts),
        feeds(depth, parts.1, items, output),
        Tee::<IntoParCollector<T>, IntoParCollector<T>>::commit_spec(mid, output, after, cf),
    ensures
        after.first().inner().items() == before.first().inner().items() + items,
        after.second().inner().items() == before.second().inner().items() + items,
{
    lemma_tee_list_feeds(depth, parts.1, items, output);
}

} // verus!
