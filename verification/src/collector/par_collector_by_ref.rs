use vstd::prelude::*;

use super::IntoParallelCollectorBase;

verus! {

/// Types whose shared references convert into parallel collectors.
pub trait ParallelCollectorByRef where for<'a> &'a Self: IntoParallelCollectorBase {
    /// A parallel collector over a shared borrow of this value.
    fn par_collector<'a>(&'a self) -> (collector: <&'a Self as IntoParallelCollectorBase>::IntoParCollector)
        ensures
            <&'a Self as IntoParallelCollectorBase>::into_par_collector.ensures((self,), collector),
    ;
}

impl<T> ParallelCollectorByRef for T where for<'a> &'a T: IntoParallelCollectorBase {
    fn par_collector<'a>(&'a self) -> <&'a T as IntoParallelCollectorBase>::IntoParCollector {
        self.into_par_collector()
    }
}

} // verus!
