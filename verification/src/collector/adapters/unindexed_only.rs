//! `unindexed_only()`: uses the unindexed path of a parallel collector on
//! both paths.
use vstd::prelude::*;
use std::ops::ControlFlow;

use crate::collector::plumbing::Consumer;
use crate::collector::{
    commits_unindexed, hands_out_unindexed, par_finishes, par_hints, ParallelCollectorBase,
    UnindexedParallelCollectorBase,
};

verus! {

/// A parallel collector whose indexed path is its unindexed path.
#[derive(Debug, Clone)]
pub struct UnindexedOnly<C> {
    collector: C,
}

impl<C> UnindexedOnly<C> {
    /// The underlying collector.
    pub closed spec fn inner(&self) -> C {
        self.collector
    }

    /// Uses the unindexed path of `collector` on both paths.
    pub fn new(collector: C) -> (unindexed_only: Self)
        ensures
            unindexed_only.inner() == collector,
    {
        UnindexedOnly { collector }
    }
}

impl<C: UnindexedParallelCollectorBase> ParallelCollectorBase for UnindexedOnly<C> {
    type Output = C::Output;

    type IndexedConsumer = C::UnindexedParts;

    open spec fn parts_spec(before: Self, len: usize, after: Self, parts: (usize, C::UnindexedParts)) -> bool {
        parts.0 == len && C::parts_unindexed_spec(before.inner(), after.inner(), parts.1)
    }

    open spec fn commit_spec(before: Self, output: <C::UnindexedParts as Consumer>::Output, after: Self, cf: ControlFlow<()>) -> bool {
        C::commit_unindexed_spec(before.inner(), output, after.inner(), cf)
    }

    /// The underlying collector's final output.
    fn finish(self) -> (output: C::Output)
        ensures
            par_finishes(self.inner(), output),
    {
        self.collector.finish()
    }

    /// The underlying collector's hint.
    fn break_hint(&self) -> (cf: ControlFlow<()>)
        ensures
            par_hints(self.inner(), cf),
    {
        self.collector.break_hint()
    }

    /// An unindexed consumer affords all `len` items.
    fn parts(&mut self, len: usize) -> (parts: (usize, C::UnindexedParts))
        ensures
            parts.0 == len,
            exists|m: &mut C| *m == old(self).inner() && *final(m) == final(self).inner() && hands_out_unindexed(m, parts.1),
    {
        (len, self.collector.parts_unindexed())
    }

    /// Commits to the underlying collector's unindexed path, and says what it
    /// says.
    fn commit(&mut self, output: <C::UnindexedParts as Consumer>::Output) -> (cf: ControlFlow<()>)
        ensures
            exists|m: &mut C| *m == old(self).inner() && *final(m) == final(self).inner() && commits_unindexed(m, output, cf),
    {
        self.collector.commit_unindexed(output)
    }
}

impl<C: UnindexedParallelCollectorBase> UnindexedParallelCollectorBase for UnindexedOnly<C> {
    type UnindexedParts = C::UnindexedParts;

    open spec fn parts_unindexed_spec(before: Self, after: Self, consumer: C::UnindexedParts) -> bool {
        C::parts_unindexed_spec(before.inner(), after.inner(), consumer)
    }

    open spec fn commit_unindexed_spec(before: Self, output: <C::UnindexedParts as Consumer>::Output, after: Self, cf: ControlFlow<()>) -> bool {
        C::commit_unindexed_spec(before.inner(), output, after.inner(), cf)
    }

    /// The underlying collector's unindexed consumer.
    fn parts_unindexed(&mut self) -> (consumer: C::UnindexedParts)
        ensures
            exists|m: &mut C| *m == old(self).inner() && *final(m) == final(self).inner() && hands_out_unindexed(m, consumer),
    {
        self.collector.parts_unindexed()
    }

    /// Commits to the underlying collector's unindexed path, and says what it
    /// says.
    fn commit_unindexed(&mut self, output: <C::UnindexedParts as Consumer>::Output) -> (cf: ControlFlow<()>)
        ensures
            exists|m: &mut C| *m == old(self).inner() && *final(m) == final(self).inner() && commits_unindexed(m, output, cf),
    {
        self.collector.commit_unindexed(output)
    }
}

} // verus!
