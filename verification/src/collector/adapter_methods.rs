//! The adapters of parallel collectors, as methods.
use vstd::prelude::*;

use super::adapters::cloning::Cloning;
use super::adapters::copying::Copying;
use super::adapters::enumerate::Enumerate;
use super::adapters::filter::FilterBase;
use super::adapters::filter_with::FilterWith;
use super::adapters::indexed_only::IndexedOnly;
use super::adapters::fuse::Fuse;
use super::adapters::into_collector::IntoCollector;
use super::adapters::map::MapBase;
use super::adapters::map_with::MapWith;
use super::adapters::map_output::MapOutput;
use super::adapters::nest_local::{FoldLocal, NestLocal, NestLocalWith};
use super::adapters::take::Take;
use super::adapters::take_any_while::TakeAnyWhile;
use super::adapters::tee::Tee;
use super::adapters::tee_clone::TeeClone;
use super::adapters::tee_funnel::TeeFunnel;
use super::adapters::tee_mut::TeeMut;
use super::adapters::unindexed_only::UnindexedOnly;
use super::plumbing::SerialCollectorBase;
use super::{IntoParallelCollectorBase, ParallelCollectorBase, UnindexedParallelCollectorBase};

verus! {

/// The adapters of every parallel collector.
pub trait ParallelCollectorAdapters: ParallelCollectorBase {
    /// A parallel collector that, once it has stopped, keeps reporting a
    /// stop and collects nothing more.
    fn fuse(self) -> (fuse: Fuse<Self>)
        ensures
            fuse.inner() == self,
    ;

    /// A parallel collector that stops after collecting `n` items, or fewer
    /// if this collector stops sooner.
    fn take(self, n: usize) -> (take: Take<Self>)
        ensures
            take.inner() == self,
            take.remaining() == n,
    ;

    /// Lets this collector collect a copy of each item before `other`
    /// collects it; the pair stops only when both have stopped.
    fn tee<D: IntoParallelCollectorBase>(self, other: D) -> (tee: Tee<Self, D::IntoParCollector>)
        ensures
            tee.first().inner() == self,
            D::into_par_collector.ensures((other,), tee.second().inner()),
    ;

    /// Lets this collector collect a clone of each item before `other`
    /// collects it; the pair stops only when both have stopped.
    fn tee_clone<D: IntoParallelCollectorBase>(self, other: D) -> (tee: TeeClone<Self, D::IntoParCollector>)
        ensures
            tee.first().inner() == self,
            D::into_par_collector.ensures((other,), tee.second().inner()),
    ;

    /// Lets this collector collect a re-lent mutable reference to each item
    /// before `other` collects the reference; the pair stops only when both
    /// have stopped.
    fn tee_mut<D: IntoParallelCollectorBase>(self, other: D) -> (tee: TeeMut<Self, D::IntoParCollector>)
        ensures
            tee.first().inner() == self,
            D::into_par_collector.ensures((other,), tee.second().inner()),
    ;

    /// Lets this collector collect a mutable reference to each item before
    /// `other` collects the item; the pair stops only when both have stopped.
    fn tee_funnel<D: IntoParallelCollectorBase>(self, other: D) -> (tee: TeeFunnel<Self, D::IntoParCollector>)
        ensures
            tee.first().inner() == self,
            D::into_par_collector.ensures((other,), tee.second().inner()),
    ;

    /// A parallel collector that maps each item with `f` before this
    /// collector collects it.
    fn map<T, F: Fn(T) -> U, U>(self, f: F) -> (map: MapBase<Self, T, F, U>)
        requires
            forall|item: T| #[trigger] f.requires((item,)),
        ensures
            map.inner() == self,
            map.f() == f,
    ;

    /// A parallel collector that maps each item with `f` and the local
    /// states of its serial part (a clone of `local1` and a state made by
    /// `local2_f`) before this collector collects it.
    fn map_with<L1: Clone, L2, U, T, FL2: Fn() -> L2, F: Fn(&mut L1, &mut L2, U) -> T>(
        self,
        local1: L1,
        local2_f: FL2,
        f: F,
    ) -> (map: MapWith<Self, L1, L2, U, T, FL2, F>)
        requires
            local2_f.requires(()),
            forall|l1: &mut L1, l2: &mut L2, item: U| #[trigger] f.requires((l1, l2, item)),
        ensures
            map.inner() == self,
            map.local1() == local1,
            map.fns().local2_f() == local2_f,
            map.fns().f() == f,
    ;

    /// A parallel collector whose final output is mapped with `f`.
    fn map_output<F: FnOnce(Self::Output) -> R, R>(self, f: F) -> (map_output: MapOutput<Self, F, R>)
        requires
            forall|output: Self::Output| #[trigger] f.requires((output,)),
        ensures
            map_output.inner() == self,
            map_output.f() == f,
    ;

    /// A serial collector made of this parallel collector.
    fn into_collector(self) -> (collector: IntoCollector<Self>)
        ensures
            collector.par_collector() == self,
    ;

    /// A parallel collector that pairs each item with its index.
    fn enumerate(self) -> (enumerate: Enumerate<Self>)
        ensures
            enumerate.inner() == self,
            enumerate.index() == 0,
    ;

    /// A parallel collector of borrowed items that collects a clone of each.
    fn cloning(self) -> (cloning: Cloning<Self>)
        ensures
            cloning.inner() == self,
    ;

    /// A parallel collector of borrowed items that collects a copy of each.
    fn copying(self) -> (copying: Copying<Self>)
        ensures
            copying.inner() == self,
    ;

    /// A parallel collector that can only be used on its indexed path.
    fn indexed_only(self) -> (indexed_only: IndexedOnly<Self>)
        ensures
            indexed_only.inner() == self,
    ;
}

impl<C: ParallelCollectorBase> ParallelCollectorAdapters for C {
    fn fuse(self) -> (fuse: Fuse<Self>) {
        Fuse::new(self)
    }

    fn take(self, n: usize) -> (take: Take<Self>) {
        Take::new(self, n)
    }

    fn tee<D: IntoParallelCollectorBase>(self, other: D) -> (tee: Tee<Self, D::IntoParCollector>) {
        super::adapters::tee::tee(self, other.into_par_collector())
    }

    fn tee_clone<D: IntoParallelCollectorBase>(self, other: D) -> (tee: TeeClone<Self, D::IntoParCollector>) {
        super::adapters::tee_clone::tee_clone(self, other.into_par_collector())
    }

    fn tee_mut<D: IntoParallelCollectorBase>(self, other: D) -> (tee: TeeMut<Self, D::IntoParCollector>) {
        super::adapters::tee_mut::tee_mut(self, other.into_par_collector())
    }

    fn tee_funnel<D: IntoParallelCollectorBase>(self, other: D) -> (tee: TeeFunnel<Self, D::IntoParCollector>) {
        super::adapters::tee_funnel::tee_funnel(self, other.into_par_collector())
    }

    fn map<T, F: Fn(T) -> U, U>(self, f: F) -> (map: MapBase<Self, T, F, U>) {
        MapBase::new(self, f)
    }

    fn map_with<L1: Clone, L2, U, T, FL2: Fn() -> L2, F: Fn(&mut L1, &mut L2, U) -> T>(
        self,
        local1: L1,
        local2_f: FL2,
        f: F,
    ) -> (map: MapWith<Self, L1, L2, U, T, FL2, F>) {
        MapWith::new(self, local1, local2_f, f)
    }

    fn map_output<F: FnOnce(Self::Output) -> R, R>(self, f: F) -> (map_output: MapOutput<Self, F, R>) {
        MapOutput::new(self, f)
    }

    fn into_collector(self) -> (collector: IntoCollector<Self>) {
        IntoCollector::new(self)
    }

    fn enumerate(self) -> (enumerate: Enumerate<Self>) {
        Enumerate::new(self)
    }

    fn cloning(self) -> (cloning: Cloning<Self>) {
        Cloning::new(self)
    }

    fn copying(self) -> (copying: Copying<Self>) {
        Copying::new(self)
    }

    fn indexed_only(self) -> (indexed_only: IndexedOnly<Self>) {
        IndexedOnly::new(self)
    }
}

/// The adapters of every unindexed parallel collector.
pub trait UnindexedParallelCollectorAdapters: UnindexedParallelCollectorBase {
    /// A parallel collector that collects only the items `pred` accepts.
    fn filter<T, P: Fn(&T) -> bool>(self, pred: P) -> (filter: FilterBase<Self, T, P>)
        requires
            forall|item: &T| #[trigger] pred.requires((item,)),
        ensures
            filter.inner() == self,
            filter.pred() == pred,
    ;

    /// A parallel collector that collects only the items `pred` accepts, asked
    /// with the local states of their serial part (a clone of `local1` and a
    /// state made by `local2_f`).
    fn filter_with<L1: Clone, L2, T, FL2: Fn() -> L2, P: Fn(&mut L1, &mut L2, &T) -> bool>(
        self,
        local1: L1,
        local2_f: FL2,
        pred: P,
    ) -> (filter: FilterWith<Self, L1, L2, T, FL2, P>)
        requires
            local2_f.requires(()),
            forall|l1: &mut L1, l2: &mut L2, item: &T| #[trigger] pred.requires((l1, l2, item)),
        ensures
            filter.inner() == self,
            filter.local1() == local1,
            filter.fns().local2_f() == local2_f,
            filter.fns().pred() == pred,
    ;

    /// A parallel collector that collects items while `pred` holds of them;
    /// once an item fails it, every split stops taking items.
    fn take_any_while<T, P: Fn(&T) -> bool>(self, pred: P) -> (take: TakeAnyWhile<Self, T, P>)
        requires
            forall|item: &T| #[trigger] pred.requires((item,)),
        ensures
            take.take_pred().pred() == pred,
    ;

    /// A parallel collector that uses the unindexed path on both paths.
    fn unindexed_only(self) -> (unindexed_only: UnindexedOnly<Self>)
        ensures
            unindexed_only.inner() == self,
    ;

    /// A parallel collector whose serial parts each collect into a clone of
    /// `local`; each part's local output is one item of this collector.
    fn nest_local<L: SerialCollectorBase + Clone>(self, local: L) -> (nest: NestLocal<Self, L>)
        ensures
            nest.inner() == self,
    ;

    /// A parallel collector whose serial parts each collect into a local
    /// serial collector made by `inner_f` from a clone of `local`; each
    /// part's local output is one item of this collector.
    fn nest_local_with<L, F: Fn(L) -> K, K>(self, local: L, inner_f: F) -> (nest: NestLocalWith<Self, L, F, K>)
        requires
            forall|local: L| #[trigger] inner_f.requires((local,)),
        ensures
            nest.inner() == self,
    ;

    /// A parallel collector whose serial parts each fold their items with `f`
    /// into a clone of `local1` and a state made by `local2_f`; each part's
    /// two states are one item of this collector.
    fn fold_local<L1, L2, T, FL2: Fn() -> L2, F: Fn(&mut L1, &mut L2, T)>(
        self,
        local1: L1,
        local2_f: FL2,
        f: F,
    ) -> (fold: FoldLocal<Self, L1, L2, T, FL2, F>)
        requires
            local2_f.requires(()),
            forall|local1: &mut L1, local2: &mut L2, item: T| #[trigger] f.requires((local1, local2, item)),
        ensures
            fold.inner() == self,
    ;
}

impl<C: UnindexedParallelCollectorBase> UnindexedParallelCollectorAdapters for C {
    fn filter<T, P: Fn(&T) -> bool>(self, pred: P) -> (filter: FilterBase<Self, T, P>) {
        FilterBase::new(self, pred)
    }

    fn filter_with<L1: Clone, L2, T, FL2: Fn() -> L2, P: Fn(&mut L1, &mut L2, &T) -> bool>(
        self,
        local1: L1,
        local2_f: FL2,
        pred: P,
    ) -> (filter: FilterWith<Self, L1, L2, T, FL2, P>) {
        FilterWith::new(self, local1, local2_f, pred)
    }

    fn take_any_while<T, P: Fn(&T) -> bool>(self, pred: P) -> (take: TakeAnyWhile<Self, T, P>) {
        TakeAnyWhile::new(self, pred)
    }

    fn unindexed_only(self) -> (unindexed_only: UnindexedOnly<Self>) {
        UnindexedOnly::new(self)
    }

    fn nest_local<L: SerialCollectorBase + Clone>(self, local: L) -> (nest: NestLocal<Self, L>) {
        NestLocal::new(self, local)
    }

    fn nest_local_with<L, F: Fn(L) -> K, K>(self, local: L, inner_f: F) -> (nest: NestLocalWith<Self, L, F, K>) {
        NestLocalWith::new(self, local, inner_f)
    }

    fn fold_local<L1, L2, T, FL2: Fn() -> L2, F: Fn(&mut L1, &mut L2, T)>(
        self,
        local1: L1,
        local2_f: FL2,
        f: F,
    ) -> (fold: FoldLocal<Self, L1, L2, T, FL2, F>) {
        FoldLocal::new(self, local1, local2_f, f)
    }
}

} // verus!
