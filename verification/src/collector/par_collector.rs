use vstd::prelude::*;

use std::ops::ControlFlow;

use super::plumbing::{Consumer, SerialCollector, UnindexedConsumer};
use super::{
    commits, commits_unindexed, hands_out, hands_out_unindexed, par_finishes, ParallelCollectorBase,
    UnindexedParallelCollectorBase,
};

verus! {

/// What drives a consumer: it splits the consumer, feeds the serial
/// collectors of the splits with at most `len` items of type `T`, combines
/// their outputs, and returns a result of its own with the combined output.
pub trait ConsumerFnOnce<T>: Sized {
    /// The driver's own result.
    type Output;

    /// Drives `consumer` over at most `len` items.
    fn call_once<K: Consumer<Serial: SerialCollector<T>>>(self, len: usize, consumer: K) -> (Self::Output, K::Output);
}

/// What drives an unindexed consumer: as [`ConsumerFnOnce`], with no length
/// known in advance.
pub trait UnindexedConsumerFnOnce<T>: Sized {
    /// The driver's own result.
    type Output;

    /// Drives `consumer`.
    fn call_once<K: UnindexedConsumer<Serial: SerialCollector<T>>>(self, consumer: K) -> (Self::Output, K::Output);
}

/// A parallel collector whose indexed path collects items of type `T`: the
/// serial collectors of the consumers handed out by `parts()` collect `T`.
pub trait IndexedParallelCollector<T>: ParallelCollectorBase<IndexedConsumer: Consumer<Serial: SerialCollector<T>>> {
    /// Runs one cycle: `f` drives the consumer of the parts for `len` items
    /// (or as many as this collector affords), and the output is committed.
    /// Returns what `f` returned and what the commit says.
    fn with_consumer<F: ConsumerFnOnce<T>>(&mut self, len: usize, f: F) -> (result: (F::Output, ControlFlow<()>))
        ensures
            exists|m: &mut Self, parts: (usize, Self::IndexedConsumer)| #![trigger hands_out(m, len, parts)]
                *m == *old(self) && hands_out(m, len, parts)
                && exists|driven: (F::Output, <Self::IndexedConsumer as Consumer>::Output)|
                    #![trigger F::call_once.ensures((f, parts.0, parts.1), driven)]
                    F::call_once.ensures((f, parts.0, parts.1), driven) && result.0 == driven.0
                    && exists|m2: &mut Self| *m2 == *final(m) && *final(m2) == *final(self) && commits(m2, driven.1, result.1),
    ;

    /// Runs one cycle as [`with_consumer`](Self::with_consumer) does, then
    /// finishes.
    fn with_consumer_then_finish<F: ConsumerFnOnce<T>>(self, len: usize, f: F) -> (result: (F::Output, Self::Output))
        ensures
            exists|m: &mut Self, cycle: (F::Output, ControlFlow<()>)| #![trigger Self::with_consumer.ensures((m, len, f), cycle)]
                *m == self && Self::with_consumer.ensures((m, len, f), cycle) && result.0 == cycle.0
                && par_finishes(*final(m), result.1),
    ;
}

impl<C, T> IndexedParallelCollector<T> for C where C: ParallelCollectorBase<IndexedConsumer: Consumer<Serial: SerialCollector<T>>> {
    fn with_consumer<F: ConsumerFnOnce<T>>(&mut self, len: usize, f: F) -> (F::Output, ControlFlow<()>) {
        let (len, consumer) = self.parts(len);
        let (ret, output) = f.call_once(len, consumer);
        (ret, self.commit(output))
    }

    fn with_consumer_then_finish<F: ConsumerFnOnce<T>>(self, len: usize, f: F) -> (F::Output, C::Output) {
        let mut this = self;
        let (ret, _) = this.with_consumer(len, f);
        (ret, this.finish())
    }
}

/// A parallel collector of items of type `T` (on its indexed path).
pub trait ParallelCollector<T>: ParallelCollectorBase<IndexedConsumer: Consumer<Serial: SerialCollector<T>>> {}

impl<C, T> ParallelCollector<T> for C where C: ParallelCollectorBase<IndexedConsumer: Consumer<Serial: SerialCollector<T>>> {}

/// An unindexed parallel collector of items of type `T`: both of its paths
/// collect `T`.
pub trait UnindexedParallelCollector<T>: UnindexedParallelCollectorBase<
    IndexedConsumer: Consumer<Serial: SerialCollector<T>>,
    UnindexedParts: Consumer<Serial: SerialCollector<T>>,
> {
    /// Runs one unindexed cycle: `f` drives the unindexed consumer, and the
    /// output is committed. Returns what `f` returned and what the commit
    /// says.
    fn with_unindexed_consumer<F: UnindexedConsumerFnOnce<T>>(&mut self, f: F) -> (result: (F::Output, ControlFlow<()>))
        ensures
            exists|m: &mut Self, consumer: Self::UnindexedParts| #![trigger hands_out_unindexed(m, consumer)]
                *m == *old(self) && hands_out_unindexed(m, consumer)
                && exists|driven: (F::Output, <Self::UnindexedParts as Consumer>::Output)|
                    #![trigger F::call_once.ensures((f, consumer), driven)]
                    F::call_once.ensures((f, consumer), driven) && result.0 == driven.0
                    && exists|m2: &mut Self| *m2 == *final(m) && *final(m2) == *final(self) && commits_unindexed(m2, driven.1, result.1),
    ;

    /// Runs one unindexed cycle as
    /// [`with_unindexed_consumer`](Self::with_unindexed_consumer) does, then
    /// finishes.
    fn with_unindexed_consumer_then_finish<F: UnindexedConsumerFnOnce<T>>(self, f: F) -> (result: (F::Output, Self::Output))
        ensures
            exists|m: &mut Self, cycle: (F::Output, ControlFlow<()>)| #![trigger Self::with_unindexed_consumer.ensures((m, f), cycle)]
                *m == self && Self::with_unindexed_consumer.ensures((m, f), cycle) && result.0 == cycle.0
                && par_finishes(*final(m), result.1),
    ;
}

impl<C, T> UnindexedParallelCollector<T> for C where
    C: UnindexedParallelCollectorBase<
        IndexedConsumer: Consumer<Serial: SerialCollector<T>>,
        UnindexedParts: Consumer<Serial: SerialCollector<T>>,
    > {
    fn with_unindexed_consumer<F: UnindexedConsumerFnOnce<T>>(&mut self, f: F) -> (F::Output, ControlFlow<()>) {
        let consumer = self.parts_unindexed();
        let (ret, output) = f.call_once(consumer);
        (ret, self.commit_unindexed(output))
    }

    fn with_unindexed_consumer_then_finish<F: UnindexedConsumerFnOnce<T>>(self, f: F) -> (F::Output, C::Output) {
        let mut this = self;
        let (ret, _) = this.with_unindexed_consumer(f);
        (ret, this.finish())
    }
}

} // verus!
