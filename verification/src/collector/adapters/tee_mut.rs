//! `tee_mut()`: both collectors get each item by mutable reference, the first
//! before the second.
use vstd::prelude::*;

use super::tee_base::TeeBase;
use crate::collector::ParallelCollectorBase;

verus! {

/// A pair of parallel collectors that both see each item through a mutable
/// reference, the first before the second.
pub type TeeMut<C1, C2> = TeeBase<C1, C2, MutTeer>;

/// Re-lends the mutable reference of each item to the first collector.
#[derive(Clone, Copy)]
pub struct MutTeer;

impl MutTeer {
    /// Items are not copied: an item is only re-lent while both collect.
    pub const ITEM_IS_COPY: bool = false;

    /// The same referenced item, re-lent: what the first collector leaves in
    /// it is what the second one sees.
    pub fn pass_down<'a, T>(&mut self, item: &'a mut T) -> (lent: &'a mut T)
        ensures
            *lent == *old(item),
            *final(item) == *final(lent),
    {
        item
    }
}

/// Tees `collector1` and `collector2`; both see each item by mutable
/// reference.
pub fn tee_mut<C1: ParallelCollectorBase, C2: ParallelCollectorBase>(collector1: C1, collector2: C2) -> (tee: TeeMut<C1, C2>)
    ensures
        tee.first().inner() == collector1,
        tee.second().inner() == collector2,
{
    TeeBase::new(collector1, collector2, MutTeer)
}

} // verus!
