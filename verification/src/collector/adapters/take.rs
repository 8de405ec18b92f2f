//! `take(n)`: a parallel collector that stops accumulating after `n` items,
//! or fewer if the underlying collector stops sooner.
use vstd::prelude::*;
use std::ops::ControlFlow;
use std::sync::Arc;
use std::sync::atomic::{AtomicUsize, Ordering};

use super::shared::{fetch_decrement, share};
use crate::collector::feeding::feeds;
use crate::collections::linked_list::{IntoParCollector, ListCombiner, ListConsumer, ListSerial};
use super::into_collector::collects_then_outputs;
use crate::collector::plumbing::{
    collects, collects_each, collects_in_order, Combiner, consumer_hints, continues_through, converts, splits_at, finishes, gives_combiner, hints, splits, Consumer, CollectSpec, SerialCollector,
    SerialCollectorBase, UnindexedConsumer,
};
use crate::collector::{commits, commits_unindexed, hands_out, hands_out_unindexed, par_finishes, ParallelCollectorBase, UnindexedParallelCollectorBase};

verus! {

/// How much of a request of `len` items a budget of `remaining` affords, and
/// the budget left afterwards.
pub open spec fn spend(remaining: usize, len: usize) -> (usize, usize) {
    if remaining < len {
        (remaining, 0)
    } else {
        (len, (remaining - len) as usize)
    }
}

/// Spending never creates budget: what is afforded and what is left add up to
/// the budget before, and no more than the request is afforded.
pub proof fn lemma_spend_conserves(remaining: usize, len: usize)
    ensures
        spend(remaining, len).0 + spend(remaining, len).1 == remaining,
        spend(remaining, len).0 <= len,
        spend(remaining, len).1 == 0 <==> remaining <= len,
{
}

/// Spending affords as much as it can: never more than the request or the
/// budget, and all of one of them; so a budget at least as large as the
/// request affords the whole request, and what is not afforded stays.
pub proof fn lemma_spend_affords_all_it_can(remaining: usize, len: usize)
    ensures
        spend(remaining, len).0 <= len,
        spend(remaining, len).0 <= remaining,
        spend(remaining, len).0 == len || spend(remaining, len).0 == remaining,
        remaining >= len ==> spend(remaining, len).0 == len,
        spend(remaining, len).1 + spend(remaining, len).0 == remaining,
{
}

/// How many items successive requests `lens` are afforded, in total, from a
/// budget of `remaining`.
pub open spec fn total_afforded(remaining: usize, lens: Seq<usize>) -> nat
    decreases lens.len(),
{
    if lens.len() == 0 {
        0
    } else {
        let (afforded, left) = spend(remaining, lens[0]);
        afforded as nat + total_afforded(left, lens.drop_first())
    }
}

/// The budget left after successive requests `lens` from a budget of
/// `remaining`.
pub open spec fn budget_after(remaining: usize, lens: Seq<usize>) -> usize
    decreases lens.len(),
{
    if lens.len() == 0 {
        remaining
    } else {
        budget_after(spend(remaining, lens[0]).1, lens.drop_first())
    }
}

/// Over any number of cycles, the indexed path of `take(n)` affords at most
/// `n` items in total: what was afforded and what is left add up to `n`.
pub proof fn lemma_take_affords_at_most_n(n: usize, lens: Seq<usize>)
    ensures
        total_afforded(n, lens) + budget_after(n, lens) == n,
        total_afforded(n, lens) <= n,
    decreases lens.len(),
{
    if lens.len() > 0 {
        lemma_spend_conserves(n, lens[0]);
        lemma_take_affords_at_most_n(spend(n, lens[0]).1, lens.drop_first());
    }
}

/// What is left of a shared budget, as the other splits have left it.
pub fn load_budget(remaining: &AtomicUsize) -> usize {
    remaining.load(Ordering::Relaxed)
}

/// The smaller of `a` and `b`.
pub open spec fn min_int(a: int, b: int) -> int {
    if a < b { a } else { b }
}

/// Splitting a take consumer with a budget of `n` at `index` and feeding the
/// first `index` of `items` to the left split and the rest to the right one
/// keeps exactly the first `n` items (or all of them), in order: the left
/// split keeps the first of its items, as many as its budget `min(index, n)`
/// allows, and the right split the first of its items, as many as the rest
/// of the budget allows.
pub proof fn lemma_take_split_keeps_prefix<T>(n: usize, index: usize, items: Seq<T>)
    requires
        index <= items.len(),
    ensures
        ({
            let left_n = min_int(index as int, n as int);
            let left = items.take(index as int);
            let right = items.skip(index as int);
            left.take(min_int(left_n, left.len() as int)) + right.take(min_int(n - left_n, right.len() as int))
                == items.take(min_int(n as int, items.len() as int))
        }),
{
    let left_n = min_int(index as int, n as int);
    let left = items.take(index as int);
    let right = items.skip(index as int);
    assert(left.take(min_int(left_n, left.len() as int)) + right.take(min_int(n - left_n, right.len() as int))
        =~= items.take(min_int(n as int, items.len() as int)));
}

/// The serial collector of a take consumer over a list, collecting `items`
/// and finishing, outputs the first of them, as many as its budget allows.
pub proof fn lemma_take_list_serial_outputs<T>(serial: TakeSerial<ListSerial<T>>, items: Seq<T>, output: Vec<T>)
    requires
        serial.inner().items() == Seq::<T>::empty(),
        collects_then_outputs(serial, items, output),
    ensures
        output@ == items.take(min_int(serial.remaining() as int, items.len() as int)),
{
    assert(!TakeSerial::<ListSerial<T>>::batch_finish_spec(serial, items, output));
    let after = choose|a: TakeSerial<ListSerial<T>>| #[trigger] finishes(a, output)
        && exists|c: ControlFlow<()>| collects_in_order(serial, items, a, c) || TakeSerial::<ListSerial<T>>::batch_spec(serial, items, a, c);
    let cf = choose|c: ControlFlow<()>| collects_in_order(serial, items, after, c) || TakeSerial::<ListSerial<T>>::batch_spec(serial, items, after, c);
    assert(!TakeSerial::<ListSerial<T>>::batch_spec(serial, items, after, cf));
    lemma_take_list_keeps_prefix(serial, items, after, cf);
    assert(Seq::<T>::empty() + items.take(min_int(serial.remaining() as int, items.len() as int))
        =~= items.take(min_int(serial.remaining() as int, items.len() as int)));
}

/// However a batch is split (at any indices, nested any number of times),
/// the outputs of a take consumer over a list, combined, hold the first
/// items of the batch, as many as the consumer's budget allows, in order.
pub proof fn lemma_take_list_feeds<T>(depth: nat, consumer: TakeConsumer<ListConsumer<T>>, items: Seq<T>, output: Vec<T>)
    requires
        feeds(depth, consumer, items, output),
    ensures
        output@ == items.take(min_int(consumer.n() as int, items.len() as int)),
    decreases depth,
{
    if exists|serial: <TakeConsumer<ListConsumer<T>> as Consumer>::Serial| #[trigger] converts(consumer, serial) && collects_then_outputs(serial, items, output) {
        let serial = choose|serial: <TakeConsumer<ListConsumer<T>> as Consumer>::Serial| #[trigger] converts(consumer, serial) && collects_then_outputs(serial, items, output);
        lemma_take_list_serial_outputs(serial, items, output);
    } else {
        let (index, right, left, combiner, left_out, right_out) = choose|index: usize, right: TakeConsumer<ListConsumer<T>>, left: TakeConsumer<ListConsumer<T>>, combiner: ListCombiner, left_out: Vec<T>, right_out: Vec<T>|
            #![trigger TakeConsumer::<ListConsumer<T>>::split_at_spec(consumer, index, right, (left, combiner)), combiner.combine_spec(left_out, right_out, output)]
            index <= items.len() && TakeConsumer::<ListConsumer<T>>::split_at_spec(consumer, index, right, (left, combiner))
            && feeds((depth - 1) as nat, left, items.take(index as int), left_out)
            && feeds((depth - 1) as nat, right, items.skip(index as int), right_out)
            && combiner.combinable(left_out, right_out)
            && combiner.combine_spec(left_out, right_out, output);
        lemma_take_list_feeds((depth - 1) as nat, left, items.take(index as int), left_out);
        lemma_take_list_feeds((depth - 1) as nat, right, items.skip(index as int), right_out);
        lemma_take_split_keeps_prefix(consumer.n(), index, items);
    }
}

/// Parts of `take` over a list collector afford as much as they can: the
/// request or the budget left, whichever is less (so a budget at least as
/// large as the request affords all of it), and the budget goes down by
/// exactly what was afforded; the consumer may take that many items.
pub proof fn lemma_take_list_parts<T>(before: Take<IntoParCollector<T>>, len: usize, after: Take<IntoParCollector<T>>, parts: (usize, TakeConsumer<ListConsumer<T>>))
    requires
        Take::<IntoParCollector<T>>::parts_spec(before, len, after, parts),
    ensures
        parts.0 <= len,
        parts.0 <= before.remaining(),
        parts.0 == len || parts.0 == before.remaining(),
        before.remaining() >= len ==> parts.0 == len,
        after.remaining() + parts.0 == before.remaining(),
        parts.1.n() == parts.0,
        after.inner().items() == before.inner().items(),
{
    lemma_spend_affords_all_it_can(before.remaining(), len);
}

/// One indexed cycle of `take` over a list collector, however the batch is
/// split: the list gets the first items of the batch, as many as the budget
/// left affords, in order; the budget goes down by that many, and it stops
/// exactly when the budget was no more than the request.
pub proof fn lemma_take_list_cycle<T>(
    depth: nat,
    before: Take<IntoParCollector<T>>,
    len: usize,
    mid: Take<IntoParCollector<T>>,
    parts: (usize, TakeConsumer<ListConsumer<T>>),
    items: Seq<T>,
    output: Vec<T>,
    after: Take<IntoParCollector<T>>,
    cf: ControlFlow<()>,
)
    requires
        Take::<IntoParCollector<T>>::parts_spec(before, len, mid, parts),
        feeds(depth, parts.1, items, output),
        Take::<IntoParCollector<T>>::commit_spec(mid, output, after, cf),
    ensures
        parts.0 == spend(before.remaining(), len).0,
        after.inner().items() == before.inner().items() + items.take(min_int(parts.0 as int, items.len() as int)),
        after.remaining() == spend(before.remaining(), len).1,
        (cf is Break) == (before.remaining() <= len),
{
    lemma_take_list_feeds(depth, parts.1, items, output);
}

/// An unindexed cycle of `take` carries its budget over: the consumer handed
/// out shares one budget with all its splits, and once the output is
/// committed the collector's budget is what reading that very shared budget
/// gives, that is, what the splits left of it; it goes on only while some is
/// left, and the indexed path's pending signal is untouched.
pub proof fn lemma_take_unindexed_budget_carries_over<C: UnindexedParallelCollectorBase>(
    before: Take<C>,
    mid: Take<C>,
    consumer: UnindexedTakeConsumer<C::UnindexedParts>,
    output: <C::UnindexedParts as Consumer>::Output,
    after: Take<C>,
    cf: ControlFlow<()>,
)
    requires
        Take::<C>::parts_unindexed_spec(before, mid, consumer),
        Take::<C>::commit_unindexed_spec(mid, output, after, cf),
    ensures
        load_budget.ensures((&*consumer.budget(),), after.remaining()),
        cf is Continue ==> after.remaining() != 0,
        after.pending() == before.pending(),
        after.shared() is None,
{
}

/// Every split of an unindexed take consumer, and every serial collector made
/// of one, takes from the same shared budget.
pub proof fn lemma_take_unindexed_splits_share_budget<C: UnindexedConsumer>(
    before: UnindexedTakeConsumer<C>,
    after: UnindexedTakeConsumer<C>,
    left: UnindexedTakeConsumer<C>,
    serial: UnindexedTakeSerial<C::Serial>,
)
    requires
        UnindexedTakeConsumer::<C>::split_spec(before, after, left),
        converts(left, serial),
    ensures
        left.budget() == before.budget(),
        after.budget() == before.budget(),
        serial.budget() == before.budget(),
{
}

/// The outcome of trying to take one item from a shared budget.
pub enum TakeResult {
    /// The budget was exhausted: the item must not be collected.
    NoMore,
    /// The item was the last one the budget afforded.
    OneLeft,
    /// The item was taken and more are afforded.
    MoreThanOne,
}

/// Classifies the reply of a decrement of the shared budget.
pub fn take_result(fetched: Result<usize, usize>) -> (result: TakeResult)
    requires
        fetched matches Ok(previous) ==> previous >= 1,
    ensures
        match fetched {
            Err(_) => result is NoMore,
            Ok(previous) => if previous == 1 { result is OneLeft } else { result is MoreThanOne },
        },
{
    match fetched {
        Err(_) => TakeResult::NoMore,
        Ok(previous) => if previous == 1 { TakeResult::OneLeft } else { TakeResult::MoreThanOne },
    }
}

/// Tries to take one item from the shared budget `remaining`. Which outcome
/// comes back depends on what the other serial collectors have taken.
pub fn take_one(remaining: &AtomicUsize) -> (result: TakeResult)
{
    let fetched = fetch_decrement(remaining);
    take_result(fetched)
}

/// Whether an item is forwarded to the underlying collector after `result`.
pub fn forwards(result: &TakeResult) -> (forward: bool)
    ensures
        forward == !(*result is NoMore),
{
    match result {
        TakeResult::NoMore => false,
        _ => true,
    }
}

/// What the unindexed serial collector reports after trying to take one item:
/// `inner` is what the underlying collector reported for the forwarded item
/// (`None` when nothing was forwarded).
pub fn unindexed_collect_flow(result: TakeResult, inner: Option<ControlFlow<()>>) -> (cf: ControlFlow<()>)
    requires
        (result is NoMore) == (inner is None),
    ensures
        (cf is Continue) <==> ((result is MoreThanOne) && (inner matches Some(ControlFlow::Continue(_)))),
{
    match result {
        TakeResult::NoMore => ControlFlow::Break(()),
        TakeResult::OneLeft => ControlFlow::Break(()),
        TakeResult::MoreThanOne => match inner {
            Some(ControlFlow::Continue(())) => ControlFlow::Continue(()),
            _ => ControlFlow::Break(()),
        },
    }
}

/// A parallel collector that stops accumulating after collecting `n` items,
/// or fewer if the underlying collector stops sooner.
#[derive(Debug)]
pub struct Take<C> {
    collector: C,
    remaining: usize,
    pending: ControlFlow<()>,
    shared: Option<Arc<AtomicUsize>>,
}

/// The indexed consumer of [`Take`]: its serial collector takes at most
/// `limit()` items.
pub struct TakeConsumer<C> {
    consumer: C,
    n: usize,
}

/// The unindexed consumer of [`Take`]: all its splits share one budget.
pub struct UnindexedTakeConsumer<C> {
    consumer: C,
    remaining: Arc<AtomicUsize>,
}

impl<C> Take<C> {
    /// The budget left for the indexed path.
    pub closed spec fn remaining(&self) -> usize {
        self.remaining
    }

    /// What the last `parts()` decided to report on commit.
    pub closed spec fn pending(&self) -> ControlFlow<()> {
        self.pending
    }

    /// The budget shared with the splits of the last unindexed consumer, until
    /// its output is committed.
    pub closed spec fn shared(&self) -> Option<Arc<AtomicUsize>> {
        self.shared
    }

    /// The underlying collector.
    pub closed spec fn inner(&self) -> C {
        self.collector
    }

    /// Wraps `collector` so that it takes at most `n` items.
    pub fn new(collector: C, n: usize) -> (take: Self)
        ensures
            take.remaining() == n,
            take.inner() == collector,
            take.pending() is Continue,
    {
        Take { collector, remaining: n, pending: ControlFlow::Continue(()), shared: None }
    }

    /// The budget left for the indexed path.
    pub fn remaining_budget(&self) -> (remaining: usize)
        ensures
            remaining == self.remaining(),
    {
        self.remaining
    }
}

impl<C> TakeConsumer<C> {
    /// How many items this consumer's serial collector may take.
    pub closed spec fn n(&self) -> usize {
        self.n
    }

    /// The underlying consumer.
    pub closed spec fn inner(&self) -> C {
        self.consumer
    }

    /// How many items this consumer's serial collector may take.
    pub fn limit(&self) -> (n: usize)
        ensures
            n == self.n(),
    {
        self.n
    }

}

/// The serial collector of a [`TakeConsumer`]: forwards at most `remaining()`
/// items, and stops once they are taken.
pub struct TakeSerial<S> {
    collector: S,
    remaining: usize,
}

impl<S> TakeSerial<S> {
    /// How many more items are forwarded.
    pub closed spec fn remaining(&self) -> usize {
        self.remaining
    }

    /// The underlying serial collector.
    pub closed spec fn inner(&self) -> S {
        self.collector
    }
}

impl<S: SerialCollectorBase> SerialCollectorBase for TakeSerial<S> {
    type Output = S::Output;

    /// The underlying collector's output.
    fn finish(self) -> (output: S::Output)
        ensures
            finishes(self.inner(), output),
    {
        self.collector.finish()
    }

    /// A stop once none remain; else the underlying collector's hint.
    fn break_hint(&self) -> (cf: ControlFlow<()>)
        ensures
            self.remaining() == 0 ==> cf is Break,
            self.remaining() != 0 ==> hints(self.inner(), cf),
    {
        if self.remaining == 0 {
            ControlFlow::Break(())
        } else {
            self.collector.break_hint()
        }
    }
}

impl<S: SerialCollector<T>, T> CollectSpec<T> for TakeSerial<S> {
    /// With none remaining, nothing is forwarded and it stops; otherwise the
    /// underlying collector collects the item, one fewer remains, and it
    /// stops once none remain, else says what the underlying collector said.
    open spec fn collect_spec(before: Self, item: T, after: Self, cf: ControlFlow<()>) -> bool {
        if before.remaining() == 0 {
            after.remaining() == 0 && after.inner() == before.inner() && cf is Break
        } else {
            &&& after.remaining() == before.remaining() - 1
            &&& exists|inner_cf: ControlFlow<()>| #[trigger] S::collect_spec(before.inner(), item, after.inner(), inner_cf)
                && cf == if after.remaining() == 0 { ControlFlow::Break(()) } else { inner_cf }
        }
    }
}

impl<S: SerialCollector<T>, T> SerialCollector<T> for TakeSerial<S> {
    /// Forwards the item if any remain; stops once none remain.
    fn collect(&mut self, item: T) -> (cf: ControlFlow<()>)
        ensures
            old(self).remaining() == 0 ==> final(self).remaining() == 0 && final(self).inner() == old(self).inner(),
            old(self).remaining() > 0 ==> final(self).remaining() == old(self).remaining() - 1,
            final(self).remaining() == 0 ==> cf is Break,
    {
        if self.remaining == 0 {
            return ControlFlow::Break(());
        }
        self.remaining = self.remaining - 1;
        let cf = self.collector.collect(item);
        assert(S::collect_spec(old(self).inner(), item, self.inner(), cf));
        if self.remaining == 0 {
            ControlFlow::Break(())
        } else {
            cf
        }
    }
}

/// Going on through `items` forwards each of them to the list collected
/// into, one less remaining for each, and some always remain.
pub proof fn lemma_take_list_continues<T>(before: TakeSerial<ListSerial<T>>, items: Seq<T>, after: TakeSerial<ListSerial<T>>)
    requires
        continues_through(before, items, after),
    ensures
        after.remaining() + items.len() == before.remaining(),
        after.inner().items() == before.inner().items() + items,
        items.len() > 0 ==> after.remaining() > 0,
    decreases items.len(),
{
    if items.len() == 0 {
        assert(before.inner().items() + items =~= before.inner().items());
    } else {
        let (mid, c) = choose|mid: TakeSerial<ListSerial<T>>, c: ControlFlow<()>|
            #[trigger] TakeSerial::<ListSerial<T>>::collect_spec(before, items[0], mid, c) && c is Continue
            && continues_through(mid, items.drop_first(), after);
        lemma_take_list_continues(mid, items.drop_first(), after);
        assert(before.inner().items() + items =~= before.inner().items().push(items[0]) + items.drop_first());
    }
}

/// Of `items` collected in order by a serial collector of `take` over a
/// list, exactly the first ones, as many as remained (or all of them), reach
/// the list, in order; it stops exactly when none remain.
pub proof fn lemma_take_list_keeps_prefix<T>(before: TakeSerial<ListSerial<T>>, items: Seq<T>, after: TakeSerial<ListSerial<T>>, cf: ControlFlow<()>)
    requires
        collects_in_order(before, items, after, cf),
    ensures
        after.inner().items() == before.inner().items() + items.take(
            if before.remaining() < items.len() { before.remaining() as int } else { items.len() as int },
        ),
        after.remaining() == before.remaining() - (if before.remaining() < items.len() { before.remaining() as int } else { items.len() as int }),
        (cf is Break) == (after.remaining() == 0),
{
    let hint = choose|hint: ControlFlow<()>| #[trigger] hints(before, hint) && if hint is Break {
        after == before && cf is Break
    } else {
        collects_each(before, items, after, cf)
    };
    if before.remaining() == 0 {
        assert(items.take(0) =~= Seq::<T>::empty());
        assert(before.inner().items() + items.take(0) =~= before.inner().items());
    } else {
        assert(hint is Continue);
        if cf is Continue {
            lemma_take_list_continues(before, items, after);
            assert(items.take(items.len() as int) =~= items);
        } else {
            let (i, mid) = choose|i: int, mid: TakeSerial<ListSerial<T>>| 0 <= i < items.len()
                && #[trigger] continues_through(before, items.take(i), mid)
                && TakeSerial::<ListSerial<T>>::collect_spec(mid, items[i], after, cf);
            lemma_take_list_continues(before, items.take(i), mid);
            assert(items.take(i + 1) =~= items.take(i).push(items[i]));
        }
    }
}

/// The serial collector of an [`UnindexedTakeConsumer`]: forwards an item
/// only if it can take one from the shared budget.
pub struct UnindexedTakeSerial<S> {
    collector: S,
    remaining: Arc<AtomicUsize>,
}

impl<S> UnindexedTakeSerial<S> {
    /// The underlying serial collector.
    pub closed spec fn inner(&self) -> S {
        self.collector
    }

    /// The budget shared with the other splits.
    pub closed spec fn budget(&self) -> Arc<AtomicUsize> {
        self.remaining
    }
}

impl<S: SerialCollectorBase> SerialCollectorBase for UnindexedTakeSerial<S> {
    type Output = S::Output;

    /// The underlying collector's output.
    fn finish(self) -> (output: S::Output)
        ensures
            finishes(self.inner(), output),
    {
        self.collector.finish()
    }

    /// A stop once the shared budget is used up; else the underlying
    /// collector's hint.
    fn break_hint(&self) -> (cf: ControlFlow<()>)
        ensures
            cf is Break || hints(self.inner(), cf),
            exists|left: usize| #[trigger] load_budget.ensures((&*self.budget(),), left)
                && (left == 0 ==> cf is Break) && (left != 0 ==> hints(self.inner(), cf)),
    {
        let left = load_budget(&self.remaining);
        assert(load_budget.ensures((&*self.budget(),), left));
        if left == 0 {
            ControlFlow::Break(())
        } else {
            self.collector.break_hint()
        }
    }
}

impl<S: SerialCollector<T>, T> CollectSpec<T> for UnindexedTakeSerial<S> {
    /// Either no item was taken from the shared budget (it stops, and the
    /// underlying collector is untouched), or the underlying collector
    /// collects the item, and it goes on only if that one said to.
    open spec fn collect_spec(before: Self, item: T, after: Self, cf: ControlFlow<()>) -> bool {
        &&& after.budget() == before.budget()
        &&& (cf is Break && after.inner() == before.inner())
            || exists|inner_cf: ControlFlow<()>| #[trigger] S::collect_spec(before.inner(), item, after.inner(), inner_cf)
                && (cf is Continue ==> inner_cf is Continue)
        &&& exists|result: TakeResult| #[trigger] take_one.ensures((&*before.budget(),), result) && if result is NoMore {
            after.inner() == before.inner() && cf is Break
        } else {
            exists|inner_cf: ControlFlow<()>| #[trigger] S::collect_spec(before.inner(), item, after.inner(), inner_cf)
                && ((cf is Continue) <==> (result is MoreThanOne && inner_cf is Continue))
        }
    }
}

impl<S: SerialCollector<T>, T> SerialCollector<T> for UnindexedTakeSerial<S> {
    /// Takes one from the shared budget: nothing left stops without
    /// forwarding; the last one is forwarded and stops.
    fn collect(&mut self, item: T) -> (cf: ControlFlow<()>)
        ensures
            final(self).budget() == old(self).budget(),
            (cf is Break && final(self).inner() == old(self).inner())
                || exists|m: &mut S, inner_cf: ControlFlow<()>| *m == old(self).inner() && *final(m) == final(self).inner() && collects(m, item, inner_cf) && (cf is Continue ==> inner_cf is Continue),
    {
        let result = take_one(&self.remaining);
        assert(take_one.ensures((&*old(self).budget(),), result));
        if forwards(&result) {
            let inner = self.collector.collect(item);
            assert(S::collect_spec(old(self).inner(), item, self.inner(), inner));
            unindexed_collect_flow(result, Some(inner))
        } else {
            unindexed_collect_flow(result, None)
        }
    }
}

impl<C: Consumer> Consumer for TakeConsumer<C> {
    /// The underlying consumer splits where the budget does: at `index`, or at the budget if that is less; the left split gets the budget up to there, the right one the rest.
    open spec fn split_at_spec(before: Self, index: usize, after: Self, split: (Self, Self::Combiner)) -> bool {
        C::split_at_spec(before.inner(), split.0.n(), after.inner(), (split.0.inner(), split.1))
            && split.0.n() == (if index < before.n() { index } else { before.n() }) && split.0.n() + after.n() == before.n()
    }

    type Output = C::Output;

    type Combiner = C::Combiner;

    type Serial = TakeSerial<C::Serial>;

    /// A serial collector that forwards at most `n()` items.
    fn into_collector(self) -> (serial: TakeSerial<C::Serial>)
        ensures
            serial.remaining() == self.n(),
            converts(self.inner(), serial.inner()),
    {
        TakeSerial { collector: self.consumer.into_collector(), remaining: self.n }
    }

    /// The left split gets the budget up to `index`, the right keeps the rest.
    fn split_off_left_at(&mut self, index: usize) -> (split: (Self, C::Combiner))
        ensures
            split.0.n() == if index < old(self).n() { index } else { old(self).n() },
            split.0.n() + final(self).n() == old(self).n(),
            exists|m: &mut C| *m == old(self).inner() && *final(m) == final(self).inner()
                && splits_at(m, split.0.n(), (split.0.inner(), split.1)),
    {
        let index = if index < self.n { index } else { self.n };
        let (consumer, combiner) = self.consumer.split_off_left_at(index);
        self.n = self.n - index;
        (TakeConsumer { consumer, n: index }, combiner)
    }

    fn break_hint(&self) -> (cf: ControlFlow<()>)
        ensures
            self.n() == 0 ==> cf is Break,
    {
        if self.n == 0 {
            ControlFlow::Break(())
        } else {
            self.consumer.break_hint()
        }
    }
}

impl<C: UnindexedConsumer> Consumer for UnindexedTakeConsumer<C> {
    /// The index is ignored: the underlying consumer splits freely, and the combiner is the right split's.
    open spec fn split_at_spec(before: Self, index: usize, after: Self, split: (Self, Self::Combiner)) -> bool {
        C::split_spec(before.inner(), after.inner(), split.0.inner()) && gives_combiner(after.inner(), split.1) && split.0.budget() == before.budget() && after.budget() == before.budget()
    }

    type Output = C::Output;

    type Combiner = C::Combiner;

    type Serial = UnindexedTakeSerial<C::Serial>;

    /// A serial collector taking from the shared budget.
    fn into_collector(self) -> (serial: UnindexedTakeSerial<C::Serial>)
        ensures
            serial.budget() == self.budget(),
            converts(self.inner(), serial.inner()),
    {
        UnindexedTakeSerial { collector: self.consumer.into_collector(), remaining: self.remaining }
    }

    fn split_off_left_at(&mut self, index: usize) -> (split: (Self, C::Combiner))
        ensures
            split.0.budget() == old(self).budget(),
            final(self).budget() == old(self).budget(),
    {
        let left = self.split_off_left();
        let combiner = self.to_combiner();
        (left, combiner)
    }

    /// A stop once the shared budget is used up; else the underlying
    /// consumer's hint.
    fn break_hint(&self) -> (cf: ControlFlow<()>)
        ensures
            cf is Break || consumer_hints(self.inner(), cf),
            exists|left: usize| #[trigger] load_budget.ensures((&*self.budget(),), left)
                && (left == 0 ==> cf is Break) && (left != 0 ==> consumer_hints(self.inner(), cf)),
    {
        let left = load_budget(&self.remaining);
        assert(load_budget.ensures((&*self.budget(),), left));
        if left == 0 {
            ControlFlow::Break(())
        } else {
            self.consumer.break_hint()
        }
    }
}

impl<C: UnindexedConsumer> UnindexedConsumer for UnindexedTakeConsumer<C> {
    /// The underlying consumer splits; both share the budget.
    open spec fn split_spec(before: Self, after: Self, left: Self) -> bool {
        C::split_spec(before.inner(), after.inner(), left.inner()) && left.budget() == before.budget() && after.budget() == before.budget()
    }

    /// Both splits share the same budget.
    fn split_off_left(&mut self) -> (left: Self)
        ensures
            left.budget() == old(self).budget(),
            final(self).budget() == old(self).budget(),
            exists|m: &mut C| *m == old(self).inner() && *final(m) == final(self).inner() && splits(m, left.inner()),
    {
        UnindexedTakeConsumer {
            consumer: self.consumer.split_off_left(),
            remaining: share(&self.remaining),
        }
    }

    /// The underlying consumer's combiner.
    fn to_combiner(&self) -> (combiner: C::Combiner)
        ensures
            gives_combiner(self.inner(), combiner),
    {
        self.consumer.to_combiner()
    }
}

impl<C> UnindexedTakeConsumer<C> {
    /// The budget shared by all splits.
    pub closed spec fn budget(&self) -> Arc<AtomicUsize> {
        self.remaining
    }

    /// The underlying consumer.
    pub closed spec fn inner(&self) -> C {
        self.consumer
    }
}

impl<C: ParallelCollectorBase> ParallelCollectorBase for Take<C> {
    type Output = C::Output;

    type IndexedConsumer = TakeConsumer<C::IndexedConsumer>;

    /// Up to `len` of the budget is spent; the underlying collector is asked
    /// for parts for what was spent, and the consumer takes as many items as
    /// both afford.
    open spec fn parts_spec(before: Self, len: usize, after: Self, parts: (usize, TakeConsumer<C::IndexedConsumer>)) -> bool {
        &&& after.remaining() == spend(before.remaining(), len).1
        &&& (after.pending() is Break) == (after.remaining() == 0)
        &&& parts.1.n() == parts.0
        &&& exists|inner: (usize, C::IndexedConsumer)| #[trigger] C::parts_spec(before.inner(), spend(before.remaining(), len).0, after.inner(), inner)
            && parts.0 == (if inner.0 < spend(before.remaining(), len).0 { inner.0 } else { spend(before.remaining(), len).0 })
            && parts.1.inner() == inner.1
    }

    /// The underlying collector commits the output; it stops if that one
    /// says stop or the budget was used up by the last parts.
    open spec fn commit_spec(before: Self, output: <C::IndexedConsumer as Consumer>::Output, after: Self, cf: ControlFlow<()>) -> bool {
        &&& after.remaining() == before.remaining() && after.pending() == before.pending()
        &&& exists|inner_cf: ControlFlow<()>| #[trigger] C::commit_spec(before.inner(), output, after.inner(), inner_cf)
            && ((cf is Break) <==> (inner_cf is Break || before.pending() is Break))
    }

    /// The underlying collector's final output.
    fn finish(self) -> (output: C::Output)
        ensures
            par_finishes(self.inner(), output),
    {
        self.collector.finish()
    }

    fn break_hint(&self) -> (cf: ControlFlow<()>)
        ensures
            self.remaining() == 0 ==> cf is Break,
    {
        if self.remaining == 0 {
            ControlFlow::Break(())
        } else {
            self.collector.break_hint()
        }
    }

    /// Spends up to `len` of the budget; the underlying collector is told
    /// that only the spent amount is left.
    fn parts(&mut self, len: usize) -> (parts: (usize, TakeConsumer<C::IndexedConsumer>))
        ensures
            final(self).remaining() == spend(old(self).remaining(), len).1,
            parts.0 <= spend(old(self).remaining(), len).0,
            parts.1.n() == parts.0,
            (final(self).pending() is Break) == (final(self).remaining() == 0),
            exists|m: &mut C, inner: (usize, C::IndexedConsumer)| #![trigger hands_out(m, spend(old(self).remaining(), len).0, inner)]
                *m == old(self).inner() && *final(m) == final(self).inner()
                && hands_out(m, spend(old(self).remaining(), len).0, inner)
                && parts.0 == (if inner.0 < spend(old(self).remaining(), len).0 { inner.0 } else { spend(old(self).remaining(), len).0 })
                && parts.1.inner() == inner.1,
    {
        let max_len = if self.remaining < len {
            let spent = self.remaining;
            self.remaining = 0;
            spent
        } else {
            self.remaining = self.remaining - len;
            len
        };
        assert(max_len == spend(old(self).remaining(), len).0);
        self.pending = if self.remaining == 0 { ControlFlow::Break(()) } else { ControlFlow::Continue(()) };
        let inner = self.collector.parts(max_len);
        assert(C::parts_spec(old(self).inner(), spend(old(self).remaining(), len).0, self.inner(), inner));
        let (inner_max_len, consumer) = inner;
        let max_len = if inner_max_len < max_len { inner_max_len } else { max_len };
        (max_len, TakeConsumer { consumer, n: max_len })
    }

    /// Commits to the underlying collector; stops if it stops, or if the
    /// budget was used up by the last `parts()`.
    fn commit(&mut self, output: <C::IndexedConsumer as Consumer>::Output) -> (cf: ControlFlow<()>)
        ensures
            final(self).remaining() == old(self).remaining(),
            final(self).pending() == old(self).pending(),
            old(self).pending() is Break ==> cf is Break,
            exists|m: &mut C, inner_cf: ControlFlow<()>| *m == old(self).inner() && *final(m) == final(self).inner()
                && commits(m, output, inner_cf)
                && ((cf is Break) <==> (inner_cf is Break || old(self).pending() is Break)),
    {
        let inner = self.collector.commit(output);
        assert(C::commit_spec(old(self).inner(), output, self.inner(), inner));
        match inner {
            ControlFlow::Break(()) => ControlFlow::Break(()),
            ControlFlow::Continue(()) => self.pending,
        }
    }
}

impl<C: UnindexedParallelCollectorBase> UnindexedParallelCollectorBase for Take<C> {
    type UnindexedParts = UnindexedTakeConsumer<C::UnindexedParts>;

    open spec fn parts_unindexed_spec(before: Self, after: Self, consumer: UnindexedTakeConsumer<C::UnindexedParts>) -> bool {
        &&& C::parts_unindexed_spec(before.inner(), after.inner(), consumer.inner())
        &&& after.remaining() == before.remaining() && after.pending() == before.pending()
        &&& after.shared() == Some(consumer.budget())
    }

    /// The underlying collector commits the output; what is left of the
    /// shared budget comes back, and it stops once that is used up or the
    /// underlying collector says stop.
    open spec fn commit_unindexed_spec(before: Self, output: <C::UnindexedParts as Consumer>::Output, after: Self, cf: ControlFlow<()>) -> bool {
        &&& cf is Continue ==> after.remaining() != 0
        &&& exists|inner_cf: ControlFlow<()>| #[trigger] C::commit_unindexed_spec(before.inner(), output, after.inner(), inner_cf)
            && (inner_cf is Break ==> cf is Break)
            && ((cf is Break) == (inner_cf is Break || after.remaining() == 0))
        &&& before.shared() matches Some(counter) ==> load_budget.ensures((&*counter,), after.remaining())
        &&& before.shared() is None ==> after.remaining() == before.remaining()
        &&& after.shared() is None
        &&& after.pending() == before.pending()
    }

    /// Hands out a consumer whose splits all take from one shared budget,
    /// starting from what is left.
    fn parts_unindexed(&mut self) -> (consumer: UnindexedTakeConsumer<C::UnindexedParts>)
        ensures
            final(self).remaining() == old(self).remaining(),
            final(self).pending() == old(self).pending(),
            exists|m: &mut C| *m == old(self).inner() && *final(m) == final(self).inner() && hands_out_unindexed(m, consumer.inner()),
    {
        let counter = Arc::new(AtomicUsize::new(self.remaining));
        self.shared = Some(share(&counter));
        UnindexedTakeConsumer { consumer: self.collector.parts_unindexed(), remaining: counter }
    }

    /// Commits to the underlying collector, takes back what is left of the
    /// shared budget, and stops once it is used up.
    fn commit_unindexed(&mut self, output: <C::UnindexedParts as Consumer>::Output) -> (cf: ControlFlow<()>)
        ensures
            cf is Continue ==> final(self).remaining() != 0,
            exists|m: &mut C, inner_cf: ControlFlow<()>| *m == old(self).inner() && *final(m) == final(self).inner()
                && commits_unindexed(m, output, inner_cf) && (inner_cf is Break ==> cf is Break),
    {
        let inner = self.collector.commit_unindexed(output);
        assert(C::commit_unindexed_spec(old(self).inner(), output, self.inner(), inner));
        match &self.shared {
            Some(counter) => { self.remaining = load_budget(counter); },
            None => {},
        }
        self.shared = None;
        assert(C::commit_unindexed_spec(old(self).inner(), output, self.inner(), inner));
        match inner {
            ControlFlow::Break(()) => ControlFlow::Break(()),
            ControlFlow::Continue(()) => {
                if self.remaining == 0 { ControlFlow::Break(()) } else { ControlFlow::Continue(()) }
            },
        }
    }
}

} // verus!
