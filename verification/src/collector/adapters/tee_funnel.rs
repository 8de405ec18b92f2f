//! `tee_funnel()`: the first collector gets each item by mutable reference,
//! then the second collector gets the item itself.
use vstd::prelude::*;

use super::tee_base::TeeBase;
use crate::collector::ParallelCollectorBase;

verus! {

/// A pair of parallel collectors where the first sees each item through a
/// mutable reference before the second collects it.
pub type TeeFunnel<C1, C2> = TeeBase<C1, C2, FunnelTeer>;

/// Passes a mutable reference to each item down to the first collector.
#[derive(Clone, Copy)]
pub struct FunnelTeer;

impl FunnelTeer {
    /// Items are not copied: an item is only lent while both collect.
    pub const ITEM_IS_COPY: bool = false;

    /// The same item, lent: what the first collector leaves in it is what the
    /// second one gets.
    pub fn pass_down<'a, T>(&mut self, item: &'a mut T) -> (lent: &'a mut T)
        ensures
            *lent == *old(item),
            *final(item) == *final(lent),
    {
        item
    }
}

/// Tees `collector1` and `collector2`; the first sees each item by mutable
/// reference.
pub fn tee_funnel<C1: ParallelCollectorBase, C2: ParallelCollectorBase>(collector1: C1, collector2: C2) -> (tee: TeeFunnel<C1, C2>)
    ensures
        tee.first().inner() == collector1,
        tee.second().inner() == collector2,
{
    TeeBase::new(collector1, collector2, FunnelTeer)
}

} // verus!
