//! `tee_clone()`: both collectors collect the same item, cloned for the first.
use vstd::prelude::*;

use std::ops::ControlFlow;

use super::fuse::{FuseConsumer, FuseSerial};
use super::into_collector::collects_then_outputs;
use super::tee::{lemma_fused_list_collects_all, lemma_stopped_fuse_collects_all};
use super::tee_base::{route_of, stops_when_both_stop, Route, TeeBase, TeeCombiner, TeeConsumer, TeeSerial, Teer};
use crate::collections::linked_list::{IntoParCollector, ListCombiner, ListConsumer, ListSerial};
use crate::collector::feeding::feeds;
use crate::collector::plumbing::{
    collects_all, collects_each, collects_in_order, continues_through, converts, finishes, hints,
    lemma_collects_all_concat, lemma_collects_all_push, CollectSpec, Combiner, Consumer, SerialCollector,
};
use crate::collector::ParallelCollectorBase;

verus! {

/// A pair of parallel collectors where the first collects clones of the items.
pub type TeeClone<C1, C2> = TeeBase<C1, C2, CloneTeer>;

/// Passes a clone of each item down to the first collector.
#[derive(Clone, Copy)]
pub struct CloneTeer;

impl<T: Clone> Teer<T> for CloneTeer {
    fn item_is_copy(&self, item: &T) -> (b: bool)
        ensures
            !b,
    {
        false
    }

    /// A clone of the item.
    fn pass_down(&mut self, item: &T) -> (clone: T)
        ensures
            vstd::pervasive::cloned(*item, clone),
    {
        item.clone()
    }
}

/// Tees `collector1` and `collector2`; the first collects clones.
pub fn tee_clone<C1: ParallelCollectorBase, C2: ParallelCollectorBase>(collector1: C1, collector2: C2) -> (tee: TeeClone<C1, C2>)
    ensures
        tee.first().inner() == collector1,
        tee.second().inner() == collector2,
{
    TeeBase::new(collector1, collector2, CloneTeer)
}

/// `copies` are `items`, each the item itself or a clone of it.
pub open spec fn same_or_clones<T: Clone>(items: Seq<T>, copies: Seq<T>) -> bool {
    &&& copies.len() == items.len()
    &&& forall|j: int| #![trigger copies[j]] 0 <= j < items.len() ==> copies[j] == items[j] || vstd::pervasive::cloned(items[j], copies[j])
}

/// One item collected by a clone tee of fused serial collectors: the first
/// collects the item or a clone of it, the second the item (a stopped one
/// keeping its state); a stop means both have stopped.
pub proof fn lemma_tee_clone_step<S1: SerialCollector<T>, S2: SerialCollector<T>, T: Clone>(before: TeeSerial<FuseSerial<S1>, FuseSerial<S2>, CloneTeer>, item: T, after: TeeSerial<FuseSerial<S1>, FuseSerial<S2>, CloneTeer>, cf: ControlFlow<()>)
    requires
        TeeSerial::<FuseSerial<S1>, FuseSerial<S2>, CloneTeer>::collect_spec(before, item, after, cf),
    ensures
        exists|copy: T| (copy == item || vstd::pervasive::cloned(item, copy)) && #[trigger] collects_all(before.first(), seq![copy], after.first()),
        collects_all(before.second(), seq![item], after.second()),
        cf is Break ==> after.first().hint() is Break && after.second().hint() is Break,
{
    let (hint1, hint2) = choose|hint1: ControlFlow<()>, hint2: ControlFlow<()>|
        #![trigger hints(before.first(), hint1), hints(before.second(), hint2)]
        hints(before.first(), hint1) && hints(before.second(), hint2)
        && match route_of(false, hint1, hint2) {
            Route::FirstOnly => after.second() == before.second()
                && FuseSerial::<S1>::collect_spec(before.first(), item, after.first(), cf),
            Route::SecondOnly => after.first() == before.first()
                && FuseSerial::<S2>::collect_spec(before.second(), item, after.second(), cf),
            Route::Both => (exists|clone: T, cf1: ControlFlow<()>, cf2: ControlFlow<()>|
                #![trigger FuseSerial::<S1>::collect_spec(before.first(), clone, after.first(), cf1), FuseSerial::<S2>::collect_spec(before.second(), item, after.second(), cf2)]
                vstd::pervasive::cloned(item, clone)
                && FuseSerial::<S1>::collect_spec(before.first(), clone, after.first(), cf1)
                && FuseSerial::<S2>::collect_spec(before.second(), item, after.second(), cf2))
                && stops_when_both_stop(after, cf),
        };
    let one = seq![item];
    assert(one.drop_first() =~= Seq::<T>::empty());
    assert(one[0] == item);
    match route_of(false, hint1, hint2) {
        Route::FirstOnly => {
            assert(FuseSerial::<S2>::collect_spec(before.second(), item, before.second(), before.second().hint()));
            assert(collects_all(after.second(), one.drop_first(), after.second()));
            assert(collects_all(after.first(), one.drop_first(), after.first()));
            assert(collects_all(before.first(), one, after.first()));
            assert(collects_all(before.second(), one, after.second()));
        },
        Route::SecondOnly => {
            assert(FuseSerial::<S1>::collect_spec(before.first(), item, before.first(), before.first().hint()));
            assert(collects_all(after.first(), one.drop_first(), after.first()));
            assert(collects_all(after.second(), one.drop_first(), after.second()));
            assert(collects_all(before.first(), one, after.first()));
        },
        Route::Both => {
            let (clone, cf1, cf2) = choose|clone: T, cf1: ControlFlow<()>, cf2: ControlFlow<()>|
                #![trigger FuseSerial::<S1>::collect_spec(before.first(), clone, after.first(), cf1), FuseSerial::<S2>::collect_spec(before.second(), item, after.second(), cf2)]
                vstd::pervasive::cloned(item, clone)
                && FuseSerial::<S1>::collect_spec(before.first(), clone, after.first(), cf1)
                && FuseSerial::<S2>::collect_spec(before.second(), item, after.second(), cf2);
            let copies = seq![clone];
            assert(copies.drop_first() =~= Seq::<T>::empty());
            assert(copies[0] == clone);
            assert(collects_all(after.first(), copies.drop_first(), after.first()));
            assert(collects_all(after.second(), one.drop_first(), after.second()));
            assert(collects_all(before.first(), copies, after.first()));
            assert(collects_all(before.second(), one, after.second()));
        },
    }
}

/// While a clone tee of fused serial collectors goes on, the first collects
/// each item or a clone of it, the second every item.
pub proof fn lemma_tee_clone_continues<S1: SerialCollector<T>, S2: SerialCollector<T>, T: Clone>(before: TeeSerial<FuseSerial<S1>, FuseSerial<S2>, CloneTeer>, items: Seq<T>, after: TeeSerial<FuseSerial<S1>, FuseSerial<S2>, CloneTeer>)
    requires
        continues_through(before, items, after),
    ensures
        exists|copies: Seq<T>| same_or_clones(items, copies) && #[trigger] collects_all(before.first(), copies, after.first()),
        collects_all(before.second(), items, after.second()),
    decreases items.len(),
{
    if items.len() == 0 {
        assert(same_or_clones(items, Seq::<T>::empty()));
        assert(collects_all(before.first(), Seq::<T>::empty(), after.first()));
    } else {
        let (mid, c) = choose|mid: TeeSerial<FuseSerial<S1>, FuseSerial<S2>, CloneTeer>, c: ControlFlow<()>|
            #[trigger] TeeSerial::<FuseSerial<S1>, FuseSerial<S2>, CloneTeer>::collect_spec(before, items[0], mid, c)
            && c is Continue && continues_through(mid, items.drop_first(), after);
        lemma_tee_clone_step(before, items[0], mid, c);
        lemma_tee_clone_continues(mid, items.drop_first(), after);
        let copy = choose|copy: T| (copy == items[0] || vstd::pervasive::cloned(items[0], copy)) && #[trigger] collects_all(before.first(), seq![copy], mid.first());
        let rest = choose|copies: Seq<T>| same_or_clones(items.drop_first(), copies) && #[trigger] collects_all(mid.first(), copies, after.first());
        lemma_collects_all_concat(before.first(), seq![copy], mid.first(), rest, after.first());
        lemma_collects_all_concat(before.second(), seq![items[0]], mid.second(), items.drop_first(), after.second());
        assert(seq![items[0]] + items.drop_first() =~= items);
        let copies = seq![copy] + rest;
        assert forall|j: int| #![trigger copies[j]] 0 <= j < items.len() implies copies[j] == items[j] || vstd::pervasive::cloned(items[j], copies[j]) by {
            if j > 0 {
                assert(copies[j] == rest[j - 1]);
                assert(items[j] == items.drop_first()[j - 1]);
            }
        }
        assert(same_or_clones(items, copies));
    }
}

/// Each fused serial collector of a clone tee collects every item fed to the
/// tee in order, whether or not the other has stopped (a stopped one keeps
/// its state): the first the item itself or a clone of it, the second the
/// item. The tee stops only once both have stopped.
pub proof fn lemma_tee_clone_each_side_collects_all<S1: SerialCollector<T>, S2: SerialCollector<T>, T: Clone>(before: TeeSerial<FuseSerial<S1>, FuseSerial<S2>, CloneTeer>, items: Seq<T>, after: TeeSerial<FuseSerial<S1>, FuseSerial<S2>, CloneTeer>, cf: ControlFlow<()>)
    requires
        collects_in_order(before, items, after, cf),
    ensures
        exists|copies: Seq<T>| same_or_clones(items, copies) && #[trigger] collects_all(before.first(), copies, after.first()),
        collects_all(before.second(), items, after.second()),
        cf is Break ==> after.first().hint() is Break && after.second().hint() is Break,
{
    let hint = choose|hint: ControlFlow<()>| #[trigger] hints(before, hint) && if hint is Break {
        after == before && cf is Break
    } else {
        collects_each(before, items, after, cf)
    };
    if hint is Break {
        lemma_stopped_fuse_collects_all(before.first(), items);
        lemma_stopped_fuse_collects_all(before.second(), items);
        assert(same_or_clones(items, items));
    } else if cf is Continue {
        lemma_tee_clone_continues(before, items, after);
    } else {
        let (i, mid) = choose|i: int, mid: TeeSerial<FuseSerial<S1>, FuseSerial<S2>, CloneTeer>| 0 <= i < items.len()
            && #[trigger] continues_through(before, items.take(i), mid)
            && TeeSerial::<FuseSerial<S1>, FuseSerial<S2>, CloneTeer>::collect_spec(mid, items[i], after, cf);
        lemma_tee_clone_continues(before, items.take(i), mid);
        lemma_tee_clone_step(mid, items[i], after, cf);
        let pre = choose|copies: Seq<T>| same_or_clones(items.take(i), copies) && #[trigger] collects_all(before.first(), copies, mid.first());
        let copy = choose|copy: T| (copy == items[i] || vstd::pervasive::cloned(items[i], copy)) && #[trigger] collects_all(mid.first(), seq![copy], after.first());
        lemma_stopped_fuse_collects_all(after.first(), items.skip(i + 1));
        lemma_stopped_fuse_collects_all(after.second(), items.skip(i + 1));
        lemma_collects_all_concat(before.first(), pre, mid.first(), seq![copy], after.first());
        lemma_collects_all_concat(before.first(), pre + seq![copy], after.first(), items.skip(i + 1), after.first());
        lemma_collects_all_concat(before.second(), items.take(i), mid.second(), seq![items[i]], after.second());
        lemma_collects_all_concat(before.second(), items.take(i) + seq![items[i]], after.second(), items.skip(i + 1), after.second());
        assert(items.take(i) + seq![items[i]] + items.skip(i + 1) =~= items);
        let copies = pre + seq![copy] + items.skip(i + 1);
        assert forall|j: int| #![trigger copies[j]] 0 <= j < items.len() implies copies[j] == items[j] || vstd::pervasive::cloned(items[j], copies[j]) by {
            if j < i {
                assert(copies[j] == pre[j]);
                assert(items[j] == items.take(i)[j]);
            } else if j > i {
                assert(copies[j] == items.skip(i + 1)[j - i - 1]);
            }
        }
        assert(same_or_clones(items, copies));
    }
}

/// Items or clones of them, one after the other, are items or clones of
/// them.
pub proof fn lemma_same_or_clones_concat<T: Clone>(left: Seq<T>, left_copies: Seq<T>, right: Seq<T>, right_copies: Seq<T>)
    requires
        same_or_clones(left, left_copies),
        same_or_clones(right, right_copies),
    ensures
        same_or_clones(left + right, left_copies + right_copies),
{
    let items = left + right;
    let copies = left_copies + right_copies;
    assert forall|j: int| #![trigger copies[j]] 0 <= j < items.len() implies copies[j] == items[j] || vstd::pervasive::cloned(items[j], copies[j]) by {
        if j >= left.len() {
            assert(copies[j] == right_copies[j - left.len()]);
            assert(items[j] == right[j - left.len()]);
        } else {
            assert(copies[j] == left_copies[j]);
            assert(items[j] == left[j]);
        }
    }
}

/// The serial collector of a clone tee of two empty list consumers, neither
/// stopped, collecting `items` and finishing, outputs the items or clones of
/// them in the first list and the items in the second, in order.
pub proof fn lemma_tee_clone_list_serial_outputs<T: Clone>(serial: TeeSerial<FuseSerial<ListSerial<T>>, FuseSerial<ListSerial<T>>, CloneTeer>, items: Seq<T>, output: (Vec<T>, Vec<T>))
    requires
        serial.first().hint() is Continue,
        serial.second().hint() is Continue,
        serial.first().inner().items() == Seq::<T>::empty(),
        serial.second().inner().items() == Seq::<T>::empty(),
        collects_then_outputs(serial, items, output),
    ensures
        same_or_clones(items, output.0@),
        output.1@ == items,
{
    assert(!TeeSerial::<FuseSerial<ListSerial<T>>, FuseSerial<ListSerial<T>>, CloneTeer>::batch_finish_spec(serial, items, output));
    let after = choose|a: TeeSerial<FuseSerial<ListSerial<T>>, FuseSerial<ListSerial<T>>, CloneTeer>| #[trigger] finishes(a, output)
        && exists|c: ControlFlow<()>| collects_in_order(serial, items, a, c) || TeeSerial::<FuseSerial<ListSerial<T>>, FuseSerial<ListSerial<T>>, CloneTeer>::batch_spec(serial, items, a, c);
    let cf = choose|c: ControlFlow<()>| collects_in_order(serial, items, after, c) || TeeSerial::<FuseSerial<ListSerial<T>>, FuseSerial<ListSerial<T>>, CloneTeer>::batch_spec(serial, items, after, c);
    assert(!TeeSerial::<FuseSerial<ListSerial<T>>, FuseSerial<ListSerial<T>>, CloneTeer>::batch_spec(serial, items, after, cf));
    lemma_tee_clone_each_side_collects_all(serial, items, after, cf);
    let copies = choose|copies: Seq<T>| same_or_clones(items, copies) && #[trigger] collects_all(serial.first(), copies, after.first());
    lemma_fused_list_collects_all(serial.first(), copies, after.first());
    lemma_fused_list_collects_all(serial.second(), items, after.second());
    assert(Seq::<T>::empty() + copies =~= copies);
    assert(Seq::<T>::empty() + items =~= items);
}

/// However a batch is split (at any indices, nested any number of times),
/// the outputs of a clone tee of two list consumers, neither stopped,
/// combined, hold on the first side the items or clones of them, and on the
/// second side the items, in order.
pub proof fn lemma_tee_clone_list_feeds<T: Clone>(depth: nat, consumer: TeeConsumer<FuseConsumer<ListConsumer<T>>, FuseConsumer<ListConsumer<T>>, CloneTeer>, items: Seq<T>, output: (Vec<T>, Vec<T>))
    requires
        feeds(depth, consumer, items, output),
        consumer.first().hint() is Continue,
        consumer.second().hint() is Continue,
    ensures
        same_or_clones(items, output.0@),
        output.1@ == items,
    decreases depth,
{
    if exists|serial: <TeeConsumer<FuseConsumer<ListConsumer<T>>, FuseConsumer<ListConsumer<T>>, CloneTeer> as Consumer>::Serial| #[trigger] converts(consumer, serial) && collects_then_outputs(serial, items, output) {
        let serial = choose|serial: <TeeConsumer<FuseConsumer<ListConsumer<T>>, FuseConsumer<ListConsumer<T>>, CloneTeer> as Consumer>::Serial| #[trigger] converts(consumer, serial) && collects_then_outputs(serial, items, output);
        lemma_tee_clone_list_serial_outputs(serial, items, output);
    } else {
        let (index, right, left, combiner, left_out, right_out) = choose|index: usize, right: TeeConsumer<FuseConsumer<ListConsumer<T>>, FuseConsumer<ListConsumer<T>>, CloneTeer>, left: TeeConsumer<FuseConsumer<ListConsumer<T>>, FuseConsumer<ListConsumer<T>>, CloneTeer>, combiner: TeeCombiner<ListCombiner, ListCombiner>, left_out: (Vec<T>, Vec<T>), right_out: (Vec<T>, Vec<T>)|
            #![trigger TeeConsumer::<FuseConsumer<ListConsumer<T>>, FuseConsumer<ListConsumer<T>>, CloneTeer>::split_at_spec(consumer, index, right, (left, combiner)), combiner.combine_spec(left_out, right_out, output)]
            index <= items.len() && TeeConsumer::<FuseConsumer<ListConsumer<T>>, FuseConsumer<ListConsumer<T>>, CloneTeer>::split_at_spec(consumer, index, right, (left, combiner))
            && feeds((depth - 1) as nat, left, items.take(index as int), left_out)
            && feeds((depth - 1) as nat, right, items.skip(index as int), right_out)
            && combiner.combinable(left_out, right_out)
            && combiner.combine_spec(left_out, right_out, output);
        lemma_tee_clone_list_feeds((depth - 1) as nat, left, items.take(index as int), left_out);
        lemma_tee_clone_list_feeds((depth - 1) as nat, right, items.skip(index as int), right_out);
        lemma_same_or_clones_concat(items.take(index as int), left_out.0@, items.skip(index as int), right_out.0@);
        assert(items.take(index as int) + items.skip(index as int) =~= items);
    }
}

/// One indexed cycle of a clone tee of two list collectors, neither stopped,
/// however the batch is split: the first list gets the items or clones of
/// them, the second list the items, in order.
pub proof fn lemma_tee_clone_list_cycle<T: Clone>(
    depth: nat,
    before: TeeClone<IntoParCollector<T>, IntoParCollector<T>>,
    len: usize,
    mid: TeeClone<IntoParCollector<T>, IntoParCollector<T>>,
    parts: (usize, TeeConsumer<FuseConsumer<ListConsumer<T>>, FuseConsumer<ListConsumer<T>>, CloneTeer>),
    items: Seq<T>,
    output: (Vec<T>, Vec<T>),
    after: TeeClone<IntoParCollector<T>, IntoParCollector<T>>,
    cf: ControlFlow<()>,
)
    requires
        before.first().hint() is Continue,
        before.second().hint() is Continue,
        TeeClone::<IntoParCollector<T>, IntoParCollector<T>>::parts_spec(before, len, mid, parts),
        feeds(depth, parts.1, items, output),
        TeeClone::<IntoParCollector<T>, IntoParCollector<T>>::commit_spec(mid, output, after, cf),
    ensures
        exists|copies: Seq<T>| same_or_clones(items, copies)
            && #[trigger] (before.first().inner().items() + copies) == after.first().inner().items(),
        after.second().inner().items() == before.second().inner().items() + items,
{
    lemma_tee_clone_list_feeds(depth, parts.1, items, output);
    assert(before.first().inner().items() + output.0@ == after.first().inner().items());
}

} // verus!
