use vstd::prelude::*;

use super::IntoParallelCollectorBase;

verus! {

/// Types whose mutable references convert into parallel collectors, such as
/// `Vec` (items are pushed to the back of the borrowed list).
pub trait ParallelCollectorByMut: Sized where for<'a> &'a mut Self: IntoParallelCollectorBase {
    /// A parallel collector over a mutable borrow of this value.
    fn par_collector_mut<'a>(&'a mut self) -> (collector: <&'a mut Self as IntoParallelCollectorBase>::IntoParCollector)
        ensures
            exists|m: &'a mut Self| *m == *old(self) && *final(m) == *final(self)
                && #[trigger] <&'a mut Self as IntoParallelCollectorBase>::into_par_collector.ensures((m,), collector),
    ;
}

impl<T> ParallelCollectorByMut for T where for<'a> &'a mut T: IntoParallelCollectorBase {
    fn par_collector_mut<'a>(&'a mut self) -> <&'a mut T as IntoParallelCollectorBase>::IntoParCollector {
        self.into_par_collector()
    }
}

} // verus!
