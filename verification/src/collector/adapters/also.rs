//! `also_unindexed()`: one collector for the indexed path and another one
//! for the unindexed path.
use vstd::prelude::*;
use std::ops::ControlFlow;

use super::fuse::Fuse;
use super::tee_base::and_cf_breaks;
use crate::collector::plumbing::Consumer;
use crate::collector::{
    commits, commits_unindexed, hands_out, hands_out_unindexed, par_finishes, ParallelCollectorBase,
    UnindexedParallelCollectorBase,
};

verus! {

/// A parallel collector that feeds its indexed path to one collector and its
/// unindexed path to another; both are fused, and both outputs come out.
#[derive(Debug)]
pub struct Also<I, U> {
    indexed: Fuse<I>,
    unindexed: Fuse<U>,
}

impl<I, U> Also<I, U> {
    /// The collector of the indexed path.
    pub closed spec fn indexed(&self) -> Fuse<I> {
        self.indexed
    }

    /// The collector of the unindexed path.
    pub closed spec fn unindexed(&self) -> Fuse<U> {
        self.unindexed
    }
}

impl<I: ParallelCollectorBase, U: ParallelCollectorBase> Also<I, U> {
    /// Fuses both collectors.
    pub fn new(indexed: I, unindexed: U) -> (also: Self)
        ensures
            also.indexed().inner() == indexed,
            also.unindexed().inner() == unindexed,
    {
        Also { indexed: Fuse::new(indexed), unindexed: Fuse::new(unindexed) }
    }
}

impl<I: ParallelCollectorBase, U: ParallelCollectorBase> ParallelCollectorBase for Also<I, U> {
    type Output = (I::Output, U::Output);

    type IndexedConsumer = <Fuse<I> as ParallelCollectorBase>::IndexedConsumer;

    open spec fn parts_spec(before: Self, len: usize, after: Self, parts: (usize, Self::IndexedConsumer)) -> bool {
        Fuse::<I>::parts_spec(before.indexed(), len, after.indexed(), parts) && after.unindexed() == before.unindexed()
    }

    open spec fn commit_spec(before: Self, output: <Self::IndexedConsumer as Consumer>::Output, after: Self, cf: ControlFlow<()>) -> bool {
        Fuse::<I>::commit_spec(before.indexed(), output, after.indexed(), cf) && after.unindexed() == before.unindexed()
    }

    /// Both outputs.
    fn finish(self) -> (output: (I::Output, U::Output))
        ensures
            par_finishes(self.indexed().inner(), output.0),
            par_finishes(self.unindexed().inner(), output.1),
    {
        (self.indexed.finish(), self.unindexed.finish())
    }

    /// A stop only once both collectors have stopped.
    fn break_hint(&self) -> (cf: ControlFlow<()>)
        ensures
            cf is Break <==> (self.indexed().hint() is Break && self.unindexed().hint() is Break),
    {
        and_cf_breaks(self.indexed.break_hint(), self.unindexed.break_hint())
    }

    /// The indexed collector's parts.
    fn parts(&mut self, len: usize) -> (parts: (usize, Self::IndexedConsumer))
        ensures
            final(self).unindexed() == old(self).unindexed(),
            exists|m: &mut Fuse<I>| *m == old(self).indexed() && *final(m) == final(self).indexed() && hands_out(m, len, parts),
    {
        self.indexed.parts(len)
    }

    /// Commits to the indexed collector.
    fn commit(&mut self, output: <Self::IndexedConsumer as Consumer>::Output) -> (cf: ControlFlow<()>)
        ensures
            final(self).unindexed() == old(self).unindexed(),
            exists|m: &mut Fuse<I>| *m == old(self).indexed() && *final(m) == final(self).indexed() && commits(m, output, cf),
    {
        self.indexed.commit(output)
    }
}

impl<I: ParallelCollectorBase, U: UnindexedParallelCollectorBase> UnindexedParallelCollectorBase for Also<I, U> {
    type UnindexedParts = <Fuse<U> as UnindexedParallelCollectorBase>::UnindexedParts;

    open spec fn parts_unindexed_spec(before: Self, after: Self, consumer: Self::UnindexedParts) -> bool {
        Fuse::<U>::parts_unindexed_spec(before.unindexed(), after.unindexed(), consumer) && after.indexed() == before.indexed()
    }

    open spec fn commit_unindexed_spec(before: Self, output: <Self::UnindexedParts as Consumer>::Output, after: Self, cf: ControlFlow<()>) -> bool {
        Fuse::<U>::commit_unindexed_spec(before.unindexed(), output, after.unindexed(), cf) && after.indexed() == before.indexed()
    }

    /// The unindexed collector's parts.
    fn parts_unindexed(&mut self) -> (consumer: Self::UnindexedParts)
        ensures
            final(self).indexed() == old(self).indexed(),
            exists|m: &mut Fuse<U>| *m == old(self).unindexed() && *final(m) == final(self).unindexed() && hands_out_unindexed(m, consumer),
    {
        self.unindexed.parts_unindexed()
    }

    /// Commits to the unindexed collector.
    fn commit_unindexed(&mut self, output: <Self::UnindexedParts as Consumer>::Output) -> (cf: ControlFlow<()>)
        ensures
            final(self).indexed() == old(self).indexed(),
            exists|m: &mut Fuse<U>| *m == old(self).unindexed() && *final(m) == final(self).unindexed() && commits_unindexed(m, output, cf),
    {
        self.unindexed.commit_unindexed(output)
    }
}

} // verus!
