use vstd::prelude::*;

use super::plumbing::{Consumer, SerialCollector};
use super::{ParallelCollectorBase, UnindexedParallelCollectorBase};

verus! {

/// A type that can be converted into a parallel collector.
pub trait IntoParallelCollectorBase: Sized {
    /// The final output of the parallel collector.
    type Output;

    /// The parallel collector this converts into.
    type IntoParCollector: ParallelCollectorBase<Output = Self::Output>;

    /// Converts into a parallel collector.
    fn into_par_collector(self) -> Self::IntoParCollector;
}

/// A type that can be converted into a parallel collector of items of
/// type `T`.
pub trait IntoParallelCollector<T>: IntoParallelCollectorBase<IntoParCollector: ParallelCollectorBase<IndexedConsumer: Consumer<Serial: SerialCollector<T>>>> {}

impl<C, T> IntoParallelCollector<T> for C where C: IntoParallelCollectorBase<IntoParCollector: ParallelCollectorBase<IndexedConsumer: Consumer<Serial: SerialCollector<T>>>> {}

/// A type that can be converted into an unindexed parallel collector.
pub trait IntoUnindexedParallelCollectorBase: IntoParallelCollectorBase<IntoParCollector: UnindexedParallelCollectorBase> {}

impl<C> IntoUnindexedParallelCollectorBase for C where C: IntoParallelCollectorBase<IntoParCollector: UnindexedParallelCollectorBase> {}

/// A type that can be converted into an unindexed parallel collector of items
/// of type `T`.
pub trait IntoUnindexedParallelCollector<T>: IntoParallelCollectorBase<IntoParCollector: UnindexedParallelCollectorBase<
    IndexedConsumer: Consumer<Serial: SerialCollector<T>>,
    UnindexedParts: Consumer<Serial: SerialCollector<T>>,
>> {}

impl<C, T> IntoUnindexedParallelCollector<T> for C where C: IntoParallelCollectorBase<IntoParCollector: UnindexedParallelCollectorBase<
    IndexedConsumer: Consumer<Serial: SerialCollector<T>>,
    UnindexedParts: Consumer<Serial: SerialCollector<T>>,
>> {}

/// Every parallel collector converts into itself.
impl<C: ParallelCollectorBase> IntoParallelCollectorBase for C {
    type Output = C::Output;

    type IntoParCollector = C;

    fn into_par_collector(self) -> (collector: C)
        ensures
            collector == self,
    {
        self
    }
}

} // verus!
