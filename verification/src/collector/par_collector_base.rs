use vstd::prelude::*;
use std::ops::ControlFlow;

use super::plumbing::{Consumer, UnindexedConsumer};

verus! {

/// An (indexed) parallel collector.
///
/// One cycle is: `parts(len)` reserves room for `len` items and hands out a
/// consumer; the consumer is split, its splits produce outputs that are
/// combined; the combined output is handed to `commit`. `finish` produces the
/// grand final output.
pub trait ParallelCollectorBase: Sized {
    /// The final result of this collector.
    type Output;

    /// The consumer handed out by [`parts()`](Self::parts).
    type IndexedConsumer: Consumer;

    /// Consumes the collector and returns the accumulated result.
    fn finish(self) -> Self::Output;

    /// A hint whether this parallel collector has stopped accumulating.
    fn break_hint(&self) -> ControlFlow<()>;

    /// Whether asking `before` for parts for `len` items may leave `after`
    /// and give `parts`. A collector that states nothing of its parts keeps
    /// this default, which holds of any; reasoning over collectors in
    /// general never relies on it.
    open spec fn parts_spec(before: Self, len: usize, after: Self, parts: (usize, Self::IndexedConsumer)) -> bool {
        true
    }

    /// Whether committing `output` to `before` may leave `after` and say
    /// `cf`. A collector that states nothing of its commits keeps this
    /// default, which holds of any.
    open spec fn commit_spec(before: Self, output: <Self::IndexedConsumer as Consumer>::Output, after: Self, cf: ControlFlow<()>) -> bool {
        true
    }

    /// Reserves for `len` items and returns the "maximum len" this collector
    /// affords, never more than `len`, together with a consumer.
    fn parts(&mut self, len: usize) -> (parts: (usize, Self::IndexedConsumer))
        ensures
            parts.0 <= len,
            Self::parts_spec(*old(self), len, *final(self), parts),
    ;

    /// Commits the output of a consumer obtained from [`parts()`](Self::parts)
    /// back to this collector, and says whether it has stopped.
    fn commit(&mut self, output: <Self::IndexedConsumer as Consumer>::Output) -> (cf: ControlFlow<()>)
        ensures
            Self::commit_spec(*old(self), output, *final(self), cf),
    ;
}

/// An unindexed parallel collector: its consumers can be split freely, and
/// items may land anywhere.
pub trait UnindexedParallelCollectorBase: ParallelCollectorBase {
    /// The consumer handed out by [`parts_unindexed()`](Self::parts_unindexed).
    type UnindexedParts: UnindexedConsumer;

    /// Whether asking `before` for an unindexed consumer may leave `after`
    /// and give `consumer`. A collector that states nothing of it keeps this
    /// default, which holds of any.
    open spec fn parts_unindexed_spec(before: Self, after: Self, consumer: Self::UnindexedParts) -> bool {
        true
    }

    /// Whether committing `output` of the unindexed path to `before` may
    /// leave `after` and say `cf`. A collector that states nothing of it
    /// keeps this default, which holds of any.
    open spec fn commit_unindexed_spec(before: Self, output: <Self::UnindexedParts as Consumer>::Output, after: Self, cf: ControlFlow<()>) -> bool {
        true
    }

    /// Returns a consumer that can be split freely.
    fn parts_unindexed(&mut self) -> (consumer: Self::UnindexedParts)
        ensures
            Self::parts_unindexed_spec(*old(self), *final(self), consumer),
    ;

    /// Commits the output of a consumer obtained from
    /// [`parts_unindexed()`](Self::parts_unindexed).
    fn commit_unindexed(
        &mut self,
        output: <Self::UnindexedParts as Consumer>::Output,
    ) -> (cf: ControlFlow<()>)
        ensures
            Self::commit_unindexed_spec(*old(self), output, *final(self), cf),
    ;
}


/// `output` is what finishing `collector` may give.
pub open spec fn par_finishes<C: ParallelCollectorBase>(collector: C, output: C::Output) -> bool {
    C::finish.ensures((collector,), output)
}

/// `cf` is what the hint of `collector` may say.
pub open spec fn par_hints<C: ParallelCollectorBase>(collector: C, cf: ControlFlow<()>) -> bool {
    C::break_hint.ensures((&collector,), cf)
}

/// Asking the collector behind `m` for parts for `len` items may give
/// `parts` (and leave `*final(m)`).
#[verifier::inline]
pub open spec fn hands_out<C: ParallelCollectorBase>(m: &mut C, len: usize, parts: (usize, C::IndexedConsumer)) -> bool {
    C::parts.ensures((m, len), parts)
}

/// Committing `output` to the collector behind `m` may say `cf` (and leave
/// `*final(m)`).
#[verifier::inline]
pub open spec fn commits<C: ParallelCollectorBase>(m: &mut C, output: <C::IndexedConsumer as Consumer>::Output, cf: ControlFlow<()>) -> bool {
    C::commit.ensures((m, output), cf)
}

/// Asking the collector behind `m` for an unindexed consumer may give
/// `consumer` (and leave `*final(m)`).
#[verifier::inline]
pub open spec fn hands_out_unindexed<C: UnindexedParallelCollectorBase>(m: &mut C, consumer: C::UnindexedParts) -> bool {
    C::parts_unindexed.ensures((m,), consumer)
}

/// Committing `output` of the unindexed path to the collector behind `m` may
/// say `cf` (and leave `*final(m)`).
#[verifier::inline]
pub open spec fn commits_unindexed<C: UnindexedParallelCollectorBase>(m: &mut C, output: <C::UnindexedParts as Consumer>::Output, cf: ControlFlow<()>) -> bool {
    C::commit_unindexed.ensures((m, output), cf)
}

} // verus!
