//! `indexed_only()`: hides the unindexed path of a parallel collector.
use vstd::prelude::*;
use std::ops::ControlFlow;

use crate::collector::plumbing::Consumer;
use crate::collector::{commits, hands_out, par_finishes, par_hints, ParallelCollectorBase};

verus! {

/// A parallel collector that can only be used on its indexed path.
#[derive(Debug, Clone)]
pub struct IndexedOnly<C> {
    collector: C,
}

impl<C> IndexedOnly<C> {
    /// The underlying collector.
    pub closed spec fn inner(&self) -> C {
        self.collector
    }

    /// Hides the unindexed path of `collector`.
    pub fn new(collector: C) -> (indexed_only: Self)
        ensures
            indexed_only.inner() == collector,
    {
        IndexedOnly { collector }
    }
}

impl<C: ParallelCollectorBase> ParallelCollectorBase for IndexedOnly<C> {
    type Output = C::Output;

    type IndexedConsumer = C::IndexedConsumer;

    open spec fn parts_spec(before: Self, len: usize, after: Self, parts: (usize, C::IndexedConsumer)) -> bool {
        C::parts_spec(before.inner(), len, after.inner(), parts)
    }

    open spec fn commit_spec(before: Self, output: <C::IndexedConsumer as Consumer>::Output, after: Self, cf: ControlFlow<()>) -> bool {
        C::commit_spec(before.inner(), output, after.inner(), cf)
    }

    /// The underlying collector's final output.
    fn finish(self) -> (output: C::Output)
        ensures
            par_finishes(self.inner(), output),
    {
        self.collector.finish()
    }

    /// The underlying collector's hint.
    fn break_hint(&self) -> (cf: ControlFlow<()>)
        ensures
            par_hints(self.inner(), cf),
    {
        self.collector.break_hint()
    }

    /// The underlying collector's parts.
    fn parts(&mut self, len: usize) -> (parts: (usize, C::IndexedConsumer))
        ensures
            exists|m: &mut C| *m == old(self).inner() && *final(m) == final(self).inner() && hands_out(m, len, parts),
    {
        self.collector.parts(len)
    }

    /// Commits to the underlying collector, and says what it says.
    fn commit(&mut self, output: <C::IndexedConsumer as Consumer>::Output) -> (cf: ControlFlow<()>)
        ensures
            exists|m: &mut C| *m == old(self).inner() && *final(m) == final(self).inner() && commits(m, output, cf),
    {
        self.collector.commit(output)
    }
}

} // verus!
