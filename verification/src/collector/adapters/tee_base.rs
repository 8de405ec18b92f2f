//! The `tee` family: two parallel collectors collect the same items. The pair
//! only stops when both have stopped.
use vstd::prelude::*;
use std::ops::ControlFlow;

use super::fuse::{Fuse, FuseConsumer};
use super::tee::CopyTeer;
use super::tee_clone::CloneTeer;
use super::tee_funnel::FunnelTeer;
use super::tee_mut::MutTeer;
use crate::collector::plumbing::{
    collects, combines, consumer_hints, converts, finishes, gives_combiner, hints, splits, splits_at, Combiner, Consumer,
    CollectSpec, SerialCollector, SerialCollectorBase, UnindexedConsumer,
};
use crate::collector::{
    commits, commits_unindexed, hands_out, hands_out_unindexed, par_finishes, ParallelCollectorBase, UnindexedParallelCollectorBase,
};

verus! {

/// A stop only when both report a stop.
pub open spec fn both_break(cf1: ControlFlow<()>, cf2: ControlFlow<()>) -> bool {
    cf1 is Break && cf2 is Break
}

/// Reports a stop only when both signals are stops.
pub fn and_cf_breaks(cf1: ControlFlow<()>, cf2: ControlFlow<()>) -> (cf: ControlFlow<()>)
    ensures
        (cf is Break) == both_break(cf1, cf2),
{
    match (cf1, cf2) {
        (ControlFlow::Break(()), ControlFlow::Break(())) => ControlFlow::Break(()),
        _ => ControlFlow::Continue(()),
    }
}

/// Which of the two serial collectors an item goes to.
pub enum Route {
    /// The first collector gets a passed-down copy, the second the item.
    Both,
    /// Only the first collector gets the item (the second has stopped).
    FirstOnly,
    /// Only the second collector gets the item (the first has stopped).
    SecondOnly,
}

/// Where one item goes, given whether items are copied and the hints of
/// both serial collectors.
pub open spec fn route_of(item_is_copy: bool, hint1: ControlFlow<()>, hint2: ControlFlow<()>) -> Route {
    if item_is_copy {
        Route::Both
    } else if hint2 is Break {
        Route::FirstOnly
    } else if hint1 is Break {
        Route::SecondOnly
    } else {
        Route::Both
    }
}

/// Routes one item, given the hints of both fused serial collectors. Copied
/// items always go to both (a stopped fused collector ignores them); other
/// items go only to a collector that has not stopped, so nothing is passed
/// down needlessly.
pub fn collect_route(item_is_copy: bool, hint1: ControlFlow<()>, hint2: ControlFlow<()>) -> (route: Route)
    ensures
        route == route_of(item_is_copy, hint1, hint2),
        item_is_copy ==> route is Both,
        !item_is_copy ==> match (hint1, hint2) {
            (_, ControlFlow::Break(())) => route is FirstOnly,
            (ControlFlow::Break(()), ControlFlow::Continue(())) => route is SecondOnly,
            (ControlFlow::Continue(()), ControlFlow::Continue(())) => route is Both,
        },
{
    if item_is_copy {
        Route::Both
    } else {
        match (hint1, hint2) {
            (_, ControlFlow::Break(())) => Route::FirstOnly,
            (ControlFlow::Break(()), ControlFlow::Continue(())) => Route::SecondOnly,
            (ControlFlow::Continue(()), ControlFlow::Continue(())) => Route::Both,
        }
    }
}

/// How a batch of items starts, given the hints of both fused serial
/// collectors: `None` when both have stopped.
pub fn batch_route(hint1: ControlFlow<()>, hint2: ControlFlow<()>) -> (route: Option<Route>)
    ensures
        match (hint1, hint2) {
            (ControlFlow::Break(()), ControlFlow::Break(())) => route is None,
            (ControlFlow::Continue(()), ControlFlow::Break(())) => route matches Some(Route::FirstOnly),
            (ControlFlow::Break(()), ControlFlow::Continue(())) => route matches Some(Route::SecondOnly),
            (ControlFlow::Continue(()), ControlFlow::Continue(())) => route matches Some(Route::Both),
        },
{
    match (hint1, hint2) {
        (ControlFlow::Break(()), ControlFlow::Break(())) => None,
        (ControlFlow::Continue(()), ControlFlow::Break(())) => Some(Route::FirstOnly),
        (ControlFlow::Break(()), ControlFlow::Continue(())) => Some(Route::SecondOnly),
        (ControlFlow::Continue(()), ControlFlow::Continue(())) => Some(Route::Both),
    }
}

/// Where the items of a batch go after one of them stopped a collector while
/// both were collecting: if the first stopped, the rest (that item included)
/// goes to the second; if the second stopped, the rest goes to the first.
pub fn after_stop(first_cf: ControlFlow<()>) -> (route: Route)
    ensures
        first_cf is Break ==> route is SecondOnly,
        first_cf is Continue ==> route is FirstOnly,
{
    match first_cf {
        ControlFlow::Break(()) => Route::SecondOnly,
        ControlFlow::Continue(()) => Route::FirstOnly,
    }
}

/// Teeing `item` through the serial collectors behind `m` may say `cf`
/// (and leave `*final(m)`), as [`TeeSerial::collect_teed`] says.
#[verifier::inline]
pub open spec fn tee_collects<S1: SerialCollector<T>, S2: SerialCollector<T>, TF: Teer<T>, T>(
    m: &mut TeeSerial<S1, S2, TF>,
    item: T,
    cf: ControlFlow<()>,
) -> bool {
    TeeSerial::<S1, S2, TF>::collect_teed.ensures((m, item), cf)
}

/// `cf` says stop exactly when the hints of both collectors of `tee` say
/// stop.
pub open spec fn stops_when_both_stop<S1: SerialCollectorBase, S2: SerialCollectorBase, TF>(tee: TeeSerial<S1, S2, TF>, cf: ControlFlow<()>) -> bool {
    exists|hint1: ControlFlow<()>, hint2: ControlFlow<()>|
        #![trigger hints(tee.first(), hint1), hints(tee.second(), hint2)]
        hints(tee.first(), hint1) && hints(tee.second(), hint2) && (cf is Break) == both_break(hint1, hint2)
}

/// How an item is handed to the first collector of a tee.
pub trait Teer<T>: Clone {
    /// Whether items (such as `item`) are copied, so that both collectors
    /// always get one.
    fn item_is_copy(&self, item: &T) -> bool;

    /// The item handed to the first collector; the second gets `item`.
    fn pass_down(&mut self, item: &T) -> T;
}

/// The serial collector of a [`TeeConsumer`]: both serial collectors (fused)
/// collect the same items.
pub struct TeeSerial<S1, S2, TF> {
    collector1: S1,
    collector2: S2,
    teer: TF,
}

impl<S1, S2, TF> TeeSerial<S1, S2, TF> {
    /// The first serial collector.
    pub closed spec fn first(&self) -> S1 {
        self.collector1
    }

    /// The second serial collector.
    pub closed spec fn second(&self) -> S2 {
        self.collector2
    }

    /// How items are passed down to the first collector.
    pub closed spec fn teer(&self) -> TF {
        self.teer
    }
}

impl<S1: SerialCollectorBase, S2: SerialCollectorBase, TF> SerialCollectorBase for TeeSerial<S1, S2, TF> {
    type Output = (S1::Output, S2::Output);

    /// Both outputs.
    fn finish(self) -> (output: (S1::Output, S2::Output))
        ensures
            finishes(self.first(), output.0),
            finishes(self.second(), output.1),
    {
        (self.collector1.finish(), self.collector2.finish())
    }

    /// Stopped only when both have stopped.
    fn break_hint(&self) -> (cf: ControlFlow<()>)
        ensures
            exists|hint1: ControlFlow<()>, hint2: ControlFlow<()>|
                #![trigger hints(self.first(), hint1), hints(self.second(), hint2)]
                hints(self.first(), hint1) && hints(self.second(), hint2) && (cf is Break) == both_break(hint1, hint2),
    {
        let hint1 = self.collector1.break_hint();
        let hint2 = self.collector2.break_hint();
        assert(hints(self.first(), hint1) && hints(self.second(), hint2));
        and_cf_breaks(hint1, hint2)
    }
}

impl<S1, S2, TF> TeeSerial<S1, S2, TF> {
    /// Routes the item as [`collect_route`] says; stopped only when both have
    /// stopped.
    pub fn collect_teed<T>(&mut self, item: T) -> (cf: ControlFlow<()>)
        where
            S1: SerialCollector<T>,
            S2: SerialCollector<T>,
            TF: Teer<T>,
        ensures
            exists|copy: bool, hint1: ControlFlow<()>, hint2: ControlFlow<()>|
                #![trigger TF::item_is_copy.ensures((&old(self).teer(), &item), copy), hints(old(self).first(), hint1), hints(old(self).second(), hint2)]
                TF::item_is_copy.ensures((&old(self).teer(), &item), copy) && hints(old(self).first(), hint1) && hints(old(self).second(), hint2)
                && match route_of(copy, hint1, hint2) {
                    Route::FirstOnly => final(self).second() == old(self).second() && final(self).teer() == old(self).teer()
                        && S1::collect_spec(old(self).first(), item, final(self).first(), cf),
                    Route::SecondOnly => final(self).first() == old(self).first() && final(self).teer() == old(self).teer()
                        && S2::collect_spec(old(self).second(), item, final(self).second(), cf),
                    Route::Both => (exists|t: &mut TF, passed: T, cf1: ControlFlow<()>, cf2: ControlFlow<()>|
                        #![trigger TF::pass_down.ensures((t, &item), passed), S1::collect_spec(old(self).first(), passed, final(self).first(), cf1), S2::collect_spec(old(self).second(), item, final(self).second(), cf2)]
                        *t == old(self).teer() && *final(t) == final(self).teer() && TF::pass_down.ensures((t, &item), passed)
                        && S1::collect_spec(old(self).first(), passed, final(self).first(), cf1)
                        && S2::collect_spec(old(self).second(), item, final(self).second(), cf2))
                        && stops_when_both_stop(*final(self), cf),
                },
    {
        let copy = self.teer.item_is_copy(&item);
        let hint1 = self.collector1.break_hint();
        let hint2 = self.collector2.break_hint();
        assert(hints(old(self).first(), hint1) && hints(old(self).second(), hint2));
        let route = collect_route(copy, hint1, hint2);
        match route {
            Route::FirstOnly => self.collector1.collect(item),
            Route::SecondOnly => self.collector2.collect(item),
            Route::Both => {
                let passed = self.teer.pass_down(&item);
                let _ = self.collector1.collect(passed);
                let _ = self.collector2.collect(item);
                self.break_hint()
            },
        }
    }
}

impl<S1: SerialCollector<T>, S2: SerialCollector<T>, T: Copy> CollectSpec<T> for TeeSerial<S1, S2, CopyTeer> {
    /// Both collect the item (the first a copy of it); it stops exactly when
    /// both have stopped.
    open spec fn collect_spec(before: Self, item: T, after: Self, cf: ControlFlow<()>) -> bool {
        &&& exists|cf1: ControlFlow<()>, cf2: ControlFlow<()>|
            #![trigger S1::collect_spec(before.first(), item, after.first(), cf1), S2::collect_spec(before.second(), item, after.second(), cf2)]
            S1::collect_spec(before.first(), item, after.first(), cf1)
            && S2::collect_spec(before.second(), item, after.second(), cf2)
        &&& stops_when_both_stop(after, cf)
    }
}

impl<S1: SerialCollector<T>, S2: SerialCollector<T>, T: Copy> SerialCollector<T> for TeeSerial<S1, S2, CopyTeer> {
    /// Both collect the item: the first a copy of it.
    fn collect(&mut self, item: T) -> (cf: ControlFlow<()>)
        ensures
            exists|m: &mut Self| *m == *old(self) && *final(m) == *final(self) && tee_collects(m, item, cf),
    {
        self.collect_teed(item)
    }
}

impl<S1: SerialCollector<T>, S2: SerialCollector<T>, T: Clone> CollectSpec<T> for TeeSerial<S1, S2, CloneTeer> {
    /// Routed by the hints of both before the item: if the second has
    /// stopped, the first collects the item itself; if only the first has
    /// stopped, the second does; otherwise the first collects a clone, the
    /// second the item, and it stops exactly when both have stopped.
    open spec fn collect_spec(before: Self, item: T, after: Self, cf: ControlFlow<()>) -> bool {
        exists|hint1: ControlFlow<()>, hint2: ControlFlow<()>|
            #![trigger hints(before.first(), hint1), hints(before.second(), hint2)]
            hints(before.first(), hint1) && hints(before.second(), hint2)
            && match route_of(false, hint1, hint2) {
                Route::FirstOnly => after.second() == before.second()
                    && S1::collect_spec(before.first(), item, after.first(), cf),
                Route::SecondOnly => after.first() == before.first()
                    && S2::collect_spec(before.second(), item, after.second(), cf),
                Route::Both => (exists|clone: T, cf1: ControlFlow<()>, cf2: ControlFlow<()>|
                    #![trigger S1::collect_spec(before.first(), clone, after.first(), cf1), S2::collect_spec(before.second(), item, after.second(), cf2)]
                    vstd::pervasive::cloned(item, clone)
                    && S1::collect_spec(before.first(), clone, after.first(), cf1)
                    && S2::collect_spec(before.second(), item, after.second(), cf2))
                    && stops_when_both_stop(after, cf),
            }
    }
}

impl<S1: SerialCollector<T>, S2: SerialCollector<T>, T: Clone> SerialCollector<T> for TeeSerial<S1, S2, CloneTeer> {
    /// While both collect, the first collects a clone of the item; once one
    /// has stopped, the other gets the item itself.
    fn collect(&mut self, item: T) -> (cf: ControlFlow<()>)
        ensures
            exists|m: &mut Self| *m == *old(self) && *final(m) == *final(self) && tee_collects(m, item, cf),
    {
        self.collect_teed(item)
    }
}

impl<S1, S2, T> CollectSpec<T> for TeeSerial<S1, S2, FunnelTeer> where
    S1: for<'a> SerialCollector<&'a mut T>,
    S2: SerialCollector<T>,
{
    /// Routed by the hints of both before the item: if the second has
    /// stopped, only the first gets the item (lent); if only the first has
    /// stopped, the second collects it; otherwise the first gets it lent,
    /// then the second collects what the first left, and it stops exactly
    /// when both have stopped. What the first does with the lent item is
    /// stated on `collect` itself, as its collector is bound over every
    /// lifetime of the loan.
    open spec fn collect_spec(before: Self, item: T, after: Self, cf: ControlFlow<()>) -> bool {
        exists|hint1: ControlFlow<()>, hint2: ControlFlow<()>|
            #![trigger hints(before.first(), hint1), hints(before.second(), hint2)]
            hints(before.first(), hint1) && hints(before.second(), hint2)
            && match route_of(FunnelTeer::ITEM_IS_COPY, hint1, hint2) {
                Route::FirstOnly => after.second() == before.second(),
                Route::SecondOnly => after.first() == before.first()
                    && S2::collect_spec(before.second(), item, after.second(), cf),
                Route::Both => (exists|moved: T, cf2: ControlFlow<()>|
                    #[trigger] S2::collect_spec(before.second(), moved, after.second(), cf2))
                    && stops_when_both_stop(after, cf),
            }
    }
}

impl<S1, S2, T> SerialCollector<T> for TeeSerial<S1, S2, FunnelTeer> where
    S1: for<'a> SerialCollector<&'a mut T>,
    S2: SerialCollector<T>,
{
    /// Routes the item as [`collect_route`] says for items that are not
    /// copied: while both collect, the first gets the item lent and the
    /// second gets it afterwards.
    fn collect(&mut self, item: T) -> (cf: ControlFlow<()>)
        ensures
            exists|hint1: ControlFlow<()>, hint2: ControlFlow<()>|
                #![trigger hints(old(self).first(), hint1), hints(old(self).second(), hint2)]
                hints(old(self).first(), hint1) && hints(old(self).second(), hint2)
                && match route_of(FunnelTeer::ITEM_IS_COPY, hint1, hint2) {
                    Route::FirstOnly => final(self).second() == old(self).second()
                        && exists|m1: &mut S1, lent: &mut T| *m1 == old(self).first() && *final(m1) == final(self).first() && *lent == item && collects(m1, lent, cf),
                    Route::SecondOnly => final(self).first() == old(self).first()
                        && exists|m2: &mut S2| *m2 == old(self).second() && *final(m2) == final(self).second() && collects(m2, item, cf),
                    Route::Both => (exists|m1: &mut S1, lent: &mut T, cf1: ControlFlow<()>, m2: &mut S2, cf2: ControlFlow<()>|
                        #![trigger collects(m1, lent, cf1), collects(m2, *final(lent), cf2)]
                        *m1 == old(self).first() && *final(m1) == final(self).first() && *lent == item && collects(m1, lent, cf1)
                        && *m2 == old(self).second() && *final(m2) == final(self).second() && collects(m2, *final(lent), cf2))
                        && exists|after1: ControlFlow<()>, after2: ControlFlow<()>|
                            #![trigger hints(final(self).first(), after1), hints(final(self).second(), after2)]
                            hints(final(self).first(), after1) && hints(final(self).second(), after2) && (cf is Break) == both_break(after1, after2),
                },
    {
        let hint1 = self.collector1.break_hint();
        let hint2 = self.collector2.break_hint();
        assert(hints(old(self).first(), hint1) && hints(old(self).second(), hint2));
        let route = collect_route(FunnelTeer::ITEM_IS_COPY, hint1, hint2);
        let mut item = item;
        match route {
            Route::FirstOnly => self.collector1.collect(&mut item),
            Route::SecondOnly => self.collector2.collect(item),
            Route::Both => {
                let _ = self.collector1.collect(self.teer.pass_down(&mut item));
                let _ = self.collector2.collect(item);
                self.break_hint()
            },
        }
    }
}

impl<'i, S1, S2, T> CollectSpec<&'i mut T> for TeeSerial<S1, S2, MutTeer> where
    S1: for<'a> SerialCollector<&'a mut T>,
    S2: SerialCollector<&'i mut T>,
{
    /// Routed by the hints of both before the item: if the second has
    /// stopped, only the first gets the item; if only the first has stopped,
    /// only the second does; otherwise both do, the first first, and it
    /// stops exactly when both have stopped. What each collector does with
    /// the item is stated on `collect` itself, through the loans of it.
    open spec fn collect_spec(before: Self, item: &'i mut T, after: Self, cf: ControlFlow<()>) -> bool {
        exists|hint1: ControlFlow<()>, hint2: ControlFlow<()>|
            #![trigger hints(before.first(), hint1), hints(before.second(), hint2)]
            hints(before.first(), hint1) && hints(before.second(), hint2)
            && match route_of(MutTeer::ITEM_IS_COPY, hint1, hint2) {
                Route::FirstOnly => after.second() == before.second(),
                Route::SecondOnly => after.first() == before.first(),
                Route::Both => stops_when_both_stop(after, cf),
            }
    }
}

impl<'i, S1, S2, T> SerialCollector<&'i mut T> for TeeSerial<S1, S2, MutTeer> where
    S1: for<'a> SerialCollector<&'a mut T>,
    S2: SerialCollector<&'i mut T>,
{
    /// Routes the item as [`collect_route`] says for items that are not
    /// copied: while both collect, the first gets the item re-lent and the
    /// second gets it afterwards.
    fn collect(&mut self, item: &'i mut T) -> (cf: ControlFlow<()>)
        ensures
            exists|hint1: ControlFlow<()>, hint2: ControlFlow<()>|
                #![trigger hints(old(self).first(), hint1), hints(old(self).second(), hint2)]
                hints(old(self).first(), hint1) && hints(old(self).second(), hint2)
                && match route_of(MutTeer::ITEM_IS_COPY, hint1, hint2) {
                    Route::FirstOnly => final(self).second() == old(self).second()
                        && exists|m1: &mut S1, lent: &mut T| *m1 == old(self).first() && *final(m1) == final(self).first()
                            && *lent == *old(item) && *final(lent) == *final(item) && collects(m1, lent, cf),
                    Route::SecondOnly => final(self).first() == old(self).first()
                        && exists|m2: &mut S2, lent: &mut T| *m2 == old(self).second() && *final(m2) == final(self).second()
                            && *lent == *old(item) && *final(lent) == *final(item) && collects(m2, lent, cf),
                    Route::Both => (exists|m1: &mut S1, lent1: &mut T, cf1: ControlFlow<()>, m2: &mut S2, lent2: &mut T, cf2: ControlFlow<()>|
                        #![trigger collects(m1, lent1, cf1), collects(m2, lent2, cf2)]
                        *m1 == old(self).first() && *final(m1) == final(self).first() && *lent1 == *old(item) && collects(m1, lent1, cf1)
                        && *m2 == old(self).second() && *final(m2) == final(self).second() && *lent2 == *final(lent1)
                        && *final(lent2) == *final(item) && collects(m2, lent2, cf2))
                        && exists|after1: ControlFlow<()>, after2: ControlFlow<()>|
                            #![trigger hints(final(self).first(), after1), hints(final(self).second(), after2)]
                            hints(final(self).first(), after1) && hints(final(self).second(), after2) && (cf is Break) == both_break(after1, after2),
                },
    {
        let hint1 = self.collector1.break_hint();
        let hint2 = self.collector2.break_hint();
        assert(hints(old(self).first(), hint1) && hints(old(self).second(), hint2));
        let route = collect_route(MutTeer::ITEM_IS_COPY, hint1, hint2);
        match route {
            Route::FirstOnly => self.collector1.collect(item),
            Route::SecondOnly => self.collector2.collect(item),
            Route::Both => {
                let _ = self.collector1.collect(self.teer.pass_down(&mut *item));
                let _ = self.collector2.collect(item);
                self.break_hint()
            },
        }
    }
}

/// Two fused parallel collectors collecting the same items; `teer` says how
/// an item is passed down to the first.
pub struct TeeBase<C1, C2, TF> {
    collector1: Fuse<C1>,
    collector2: Fuse<C2>,
    teer: TF,
}

/// The consumer of [`TeeBase`]: a pair of consumers, split together.
pub struct TeeConsumer<K1, K2, TF> {
    consumer1: K1,
    consumer2: K2,
    teer: TF,
}

/// The combiner of a [`TeeConsumer`]: a pair of combiners.
pub struct TeeCombiner<B1, B2> {
    /// Combines the outputs of the first collector.
    pub combiner1: B1,
    /// Combines the outputs of the second collector.
    pub combiner2: B2,
}

impl<C1: ParallelCollectorBase, C2: ParallelCollectorBase, TF> TeeBase<C1, C2, TF> {
    /// Tees `collector1` and `collector2`, fusing both.
    pub fn new(collector1: C1, collector2: C2, teer: TF) -> (tee: Self)
        ensures
            tee.first().inner() == collector1,
            tee.second().inner() == collector2,
    {
        TeeBase { collector1: Fuse::new(collector1), collector2: Fuse::new(collector2), teer }
    }
}

impl<K1, K2, TF> TeeConsumer<K1, K2, TF> {
    /// The first consumer.
    pub closed spec fn first(&self) -> K1 {
        self.consumer1
    }

    /// The second consumer.
    pub closed spec fn second(&self) -> K2 {
        self.consumer2
    }

    /// How items are passed down to the first collector.
    pub closed spec fn teer(&self) -> TF {
        self.teer
    }
}

impl<C1, C2, TF> TeeBase<C1, C2, TF> {
    /// The first (fused) collector.
    pub closed spec fn first(&self) -> Fuse<C1> {
        self.collector1
    }

    /// The second (fused) collector.
    pub closed spec fn second(&self) -> Fuse<C2> {
        self.collector2
    }

    /// How items are passed down to the first collector.
    pub closed spec fn teer(&self) -> TF {
        self.teer
    }
}

impl<B1, B2, O1, O2> Combiner<(O1, O2)> for TeeCombiner<B1, B2>
    where
        B1: Combiner<O1>,
        B2: Combiner<O2>,
{
    open spec fn combinable(&self, left: (O1, O2), right: (O1, O2)) -> bool {
        self.combiner1.combinable(left.0, right.0) && self.combiner2.combinable(left.1, right.1)
    }

    /// Each combiner combines its half of the outputs.
    open spec fn combine_spec(&self, left: (O1, O2), right: (O1, O2), combined: (O1, O2)) -> bool {
        self.combiner1.combine_spec(left.0, right.0, combined.0) && self.combiner2.combine_spec(left.1, right.1, combined.1)
    }

    /// Each combiner combines its half of the outputs.
    fn combine(self, left: &mut (O1, O2), right: (O1, O2))
        ensures
            exists|m1: &mut O1| *m1 == old(left).0 && *final(m1) == final(left).0 && combines(self.combiner1, m1, right.0),
            exists|m2: &mut O2| *m2 == old(left).1 && *final(m2) == final(left).1 && combines(self.combiner2, m2, right.1),
    {
        let (right1, right2) = right;
        self.combiner1.combine(&mut left.0, right1);
        self.combiner2.combine(&mut left.1, right2);
    }
}

impl<K1: Consumer, K2: Consumer, TF: Clone> Consumer for TeeConsumer<K1, K2, TF> {
    /// Both consumers split at `index`; the left split gets a clone of the teer.
    open spec fn split_at_spec(before: Self, index: usize, after: Self, split: (Self, Self::Combiner)) -> bool {
        K1::split_at_spec(before.first(), index, after.first(), (split.0.first(), split.1.combiner1))
            && K2::split_at_spec(before.second(), index, after.second(), (split.0.second(), split.1.combiner2))
            && after.teer() == before.teer() && vstd::pervasive::cloned(before.teer(), split.0.teer())
    }

    type Output = (K1::Output, K2::Output);

    type Combiner = TeeCombiner<K1::Combiner, K2::Combiner>;

    type Serial = TeeSerial<K1::Serial, K2::Serial, TF>;

    /// The pair of serial collectors.
    fn into_collector(self) -> (serial: TeeSerial<K1::Serial, K2::Serial, TF>)
        ensures
            converts(self.first(), serial.first()),
            converts(self.second(), serial.second()),
            serial.teer() == self.teer(),
    {
        TeeSerial {
            collector1: self.consumer1.into_collector(),
            collector2: self.consumer2.into_collector(),
            teer: self.teer,
        }
    }

    /// Both consumers split at `index`; the left split gets a clone of the
    /// teer.
    fn split_off_left_at(&mut self, index: usize) -> (split: (Self, TeeCombiner<K1::Combiner, K2::Combiner>))
        ensures
            exists|m1: &mut K1| *m1 == old(self).first() && *final(m1) == final(self).first() && splits_at(m1, index, (split.0.first(), split.1.combiner1)),
            exists|m2: &mut K2| *m2 == old(self).second() && *final(m2) == final(self).second() && splits_at(m2, index, (split.0.second(), split.1.combiner2)),
            final(self).teer() == old(self).teer(),
            vstd::pervasive::cloned(old(self).teer(), split.0.teer()),
    {
        let (consumer1, combiner1) = self.consumer1.split_off_left_at(index);
        let (consumer2, combiner2) = self.consumer2.split_off_left_at(index);
        let teer = self.teer.clone();
        assert(vstd::pervasive::cloned(self.teer, teer));
        (
            TeeConsumer { consumer1, consumer2, teer },
            TeeCombiner { combiner1, combiner2 },
        )
    }

    /// Stopped only when both have stopped.
    fn break_hint(&self) -> (cf: ControlFlow<()>)
        ensures
            exists|hint1: ControlFlow<()>, hint2: ControlFlow<()>|
                #![trigger consumer_hints(self.first(), hint1), consumer_hints(self.second(), hint2)]
                consumer_hints(self.first(), hint1) && consumer_hints(self.second(), hint2) && (cf is Break) == both_break(hint1, hint2),
    {
        let hint1 = self.consumer1.break_hint();
        let hint2 = self.consumer2.break_hint();
        assert(consumer_hints(self.first(), hint1) && consumer_hints(self.second(), hint2));
        and_cf_breaks(hint1, hint2)
    }
}

impl<K1: UnindexedConsumer, K2: UnindexedConsumer, TF: Clone> UnindexedConsumer for TeeConsumer<K1, K2, TF> {
    /// Both consumers split; the left split gets a clone of the teer.
    open spec fn split_spec(before: Self, after: Self, left: Self) -> bool {
        K1::split_spec(before.first(), after.first(), left.first()) && K2::split_spec(before.second(), after.second(), left.second())
            && after.teer() == before.teer() && vstd::pervasive::cloned(before.teer(), left.teer())
    }

    /// Both consumers split; the left split gets a clone of the teer.
    fn split_off_left(&mut self) -> (left: Self)
        ensures
            exists|m1: &mut K1| *m1 == old(self).first() && *final(m1) == final(self).first() && splits(m1, left.first()),
            exists|m2: &mut K2| *m2 == old(self).second() && *final(m2) == final(self).second() && splits(m2, left.second()),
            final(self).teer() == old(self).teer(),
            vstd::pervasive::cloned(old(self).teer(), left.teer()),
    {
        let consumer1 = self.consumer1.split_off_left();
        let consumer2 = self.consumer2.split_off_left();
        let teer = self.teer.clone();
        assert(vstd::pervasive::cloned(self.teer, teer));
        TeeConsumer { consumer1, consumer2, teer }
    }

    /// The pair of combiners.
    fn to_combiner(&self) -> (combiner: TeeCombiner<K1::Combiner, K2::Combiner>)
        ensures
            gives_combiner(self.first(), combiner.combiner1),
            gives_combiner(self.second(), combiner.combiner2),
    {
        TeeCombiner { combiner1: self.consumer1.to_combiner(), combiner2: self.consumer2.to_combiner() }
    }
}

impl<C1: ParallelCollectorBase, C2: ParallelCollectorBase, TF: Clone> ParallelCollectorBase for TeeBase<C1, C2, TF> {
    type Output = (C1::Output, C2::Output);

    type IndexedConsumer = TeeConsumer<FuseConsumer<C1::IndexedConsumer>, FuseConsumer<C2::IndexedConsumer>, TF>;

    /// Both fused collectors' parts for `len` items; the pair affords as many
    /// as the one affording more, and the consumer gets a clone of the teer.
    open spec fn parts_spec(before: Self, len: usize, after: Self, parts: (usize, Self::IndexedConsumer)) -> bool {
        &&& after.teer() == before.teer()
        &&& vstd::pervasive::cloned(before.teer(), parts.1.teer())
        &&& exists|parts1: (usize, FuseConsumer<C1::IndexedConsumer>), parts2: (usize, FuseConsumer<C2::IndexedConsumer>)|
            #![trigger Fuse::<C1>::parts_spec(before.first(), len, after.first(), parts1), Fuse::<C2>::parts_spec(before.second(), len, after.second(), parts2)]
            Fuse::<C1>::parts_spec(before.first(), len, after.first(), parts1)
            && Fuse::<C2>::parts_spec(before.second(), len, after.second(), parts2)
            && parts.0 == (if parts1.0 < parts2.0 { parts2.0 } else { parts1.0 })
            && parts.1.first() == parts1.1 && parts.1.second() == parts2.1
    }

    /// Each fused collector commits its half of the output; it stops exactly
    /// when both have stopped.
    open spec fn commit_spec(before: Self, output: <Self::IndexedConsumer as Consumer>::Output, after: Self, cf: ControlFlow<()>) -> bool {
        &&& after.teer() == before.teer()
        &&& exists|cf1: ControlFlow<()>, cf2: ControlFlow<()>|
            #![trigger Fuse::<C1>::commit_spec(before.first(), output.0, after.first(), cf1), Fuse::<C2>::commit_spec(before.second(), output.1, after.second(), cf2)]
            Fuse::<C1>::commit_spec(before.first(), output.0, after.first(), cf1)
            && Fuse::<C2>::commit_spec(before.second(), output.1, after.second(), cf2)
            && (cf is Break) == both_break(cf1, cf2)
    }

    /// Both final outputs.
    fn finish(self) -> (output: (C1::Output, C2::Output))
        ensures
            par_finishes(self.first().inner(), output.0),
            par_finishes(self.second().inner(), output.1),
    {
        (self.collector1.finish(), self.collector2.finish())
    }

    /// Stopped only when both have stopped.
    fn break_hint(&self) -> (cf: ControlFlow<()>)
        ensures
            (cf is Break) == both_break(self.first().hint(), self.second().hint()),
    {
        and_cf_breaks(self.collector1.break_hint(), self.collector2.break_hint())
    }

    /// Both collectors reserve for `len` items; the pair affords as many as
    /// the one affording more.
    fn parts(&mut self, len: usize) -> (parts: (usize, Self::IndexedConsumer))
        ensures
            exists|m1: &mut Fuse<C1>, parts1: (usize, FuseConsumer<C1::IndexedConsumer>), m2: &mut Fuse<C2>, parts2: (usize, FuseConsumer<C2::IndexedConsumer>)|
                #![trigger hands_out(m1, len, parts1), hands_out(m2, len, parts2)]
                *m1 == old(self).first() && *final(m1) == final(self).first() && hands_out(m1, len, parts1)
                && *m2 == old(self).second() && *final(m2) == final(self).second() && hands_out(m2, len, parts2)
                && parts.0 == (if parts1.0 < parts2.0 { parts2.0 } else { parts1.0 })
                && parts.1.first() == parts1.1 && parts.1.second() == parts2.1,
            final(self).teer() == old(self).teer(),
            vstd::pervasive::cloned(old(self).teer(), parts.1.teer()),
    {
        let parts1 = self.collector1.parts(len);
        let parts2 = self.collector2.parts(len);
        assert(Fuse::<C1>::parts_spec(old(self).first(), len, self.first(), parts1));
        assert(Fuse::<C2>::parts_spec(old(self).second(), len, self.second(), parts2));
        let (actual_len1, consumer1) = parts1;
        let (actual_len2, consumer2) = parts2;
        let actual_len = if actual_len1 < actual_len2 { actual_len2 } else { actual_len1 };
        let teer = self.teer.clone();
        assert(vstd::pervasive::cloned(self.teer, teer));
        (actual_len, TeeConsumer { consumer1, consumer2, teer })
    }

    /// Commits both outputs; stops only when both have stopped.
    fn commit(&mut self, output: (<FuseConsumer<C1::IndexedConsumer> as Consumer>::Output, <FuseConsumer<C2::IndexedConsumer> as Consumer>::Output)) -> (cf: ControlFlow<()>)
        ensures
            (cf is Break) == both_break(final(self).first().hint(), final(self).second().hint()),
            old(self).first().hint() is Break ==> final(self).first().hint() is Break,
            old(self).second().hint() is Break ==> final(self).second().hint() is Break,
            exists|m1: &mut Fuse<C1>, cf1: ControlFlow<()>| *m1 == old(self).first() && *final(m1) == final(self).first()
                && commits(m1, output.0, cf1),
            exists|m2: &mut Fuse<C2>, cf2: ControlFlow<()>| *m2 == old(self).second() && *final(m2) == final(self).second()
                && commits(m2, output.1, cf2),
    {
        let (output1, output2) = output;
        let cf1 = self.collector1.commit(output1);
        let cf2 = self.collector2.commit(output2);
        and_cf_breaks(cf1, cf2)
    }
}

impl<C1: UnindexedParallelCollectorBase, C2: UnindexedParallelCollectorBase, TF: Clone> UnindexedParallelCollectorBase for TeeBase<C1, C2, TF> {
    type UnindexedParts = TeeConsumer<FuseConsumer<C1::UnindexedParts>, FuseConsumer<C2::UnindexedParts>, TF>;

    /// Both fused collectors' unindexed consumers, with a clone of the teer.
    open spec fn parts_unindexed_spec(before: Self, after: Self, consumer: Self::UnindexedParts) -> bool {
        &&& after.teer() == before.teer()
        &&& vstd::pervasive::cloned(before.teer(), consumer.teer())
        &&& Fuse::<C1>::parts_unindexed_spec(before.first(), after.first(), consumer.first())
        &&& Fuse::<C2>::parts_unindexed_spec(before.second(), after.second(), consumer.second())
    }

    /// Each fused collector commits its half of the output; it stops exactly
    /// when both have stopped.
    open spec fn commit_unindexed_spec(before: Self, output: <Self::UnindexedParts as Consumer>::Output, after: Self, cf: ControlFlow<()>) -> bool {
        &&& after.teer() == before.teer()
        &&& exists|cf1: ControlFlow<()>, cf2: ControlFlow<()>|
            #![trigger Fuse::<C1>::commit_unindexed_spec(before.first(), output.0, after.first(), cf1), Fuse::<C2>::commit_unindexed_spec(before.second(), output.1, after.second(), cf2)]
            Fuse::<C1>::commit_unindexed_spec(before.first(), output.0, after.first(), cf1)
            && Fuse::<C2>::commit_unindexed_spec(before.second(), output.1, after.second(), cf2)
            && (cf is Break) == both_break(cf1, cf2)
    }

    /// Both collectors' unindexed consumers, with a clone of the teer.
    fn parts_unindexed(&mut self) -> (consumer: Self::UnindexedParts)
        ensures
            exists|m1: &mut Fuse<C1>| *m1 == old(self).first() && *final(m1) == final(self).first() && hands_out_unindexed(m1, consumer.first()),
            exists|m2: &mut Fuse<C2>| *m2 == old(self).second() && *final(m2) == final(self).second() && hands_out_unindexed(m2, consumer.second()),
            final(self).teer() == old(self).teer(),
            vstd::pervasive::cloned(old(self).teer(), consumer.teer()),
    {
        let consumer1 = self.collector1.parts_unindexed();
        let consumer2 = self.collector2.parts_unindexed();
        let teer = self.teer.clone();
        assert(vstd::pervasive::cloned(self.teer, teer));
        TeeConsumer { consumer1, consumer2, teer }
    }

    fn commit_unindexed(&mut self, output: (<FuseConsumer<C1::UnindexedParts> as Consumer>::Output, <FuseConsumer<C2::UnindexedParts> as Consumer>::Output)) -> (cf: ControlFlow<()>)
        ensures
            (cf is Break) == both_break(final(self).first().hint(), final(self).second().hint()),
            old(self).first().hint() is Break ==> final(self).first().hint() is Break,
            old(self).second().hint() is Break ==> final(self).second().hint() is Break,
            exists|m1: &mut Fuse<C1>, cf1: ControlFlow<()>| *m1 == old(self).first() && *final(m1) == final(self).first()
                && commits_unindexed(m1, output.0, cf1),
            exists|m2: &mut Fuse<C2>, cf2: ControlFlow<()>| *m2 == old(self).second() && *final(m2) == final(self).second()
                && commits_unindexed(m2, output.1, cf2),
    {
        let (output1, output2) = output;
        let cf1 = self.collector1.commit_unindexed(output1);
        let cf2 = self.collector2.commit_unindexed(output2);
        and_cf_breaks(cf1, cf2)
    }
}

} // verus!
