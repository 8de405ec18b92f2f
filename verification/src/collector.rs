//! Traits and types for parallel collectors.
//!
//! A parallel collector hands out "parts": a consumer that can be split (at an
//! index, or freely when unindexed), whose splits produce outputs that are
//! merged by combiners, and whose final output is committed back to the
//! parallel collector, completing a cycle.
mod adapter_methods;
mod custom;
pub mod feeding;
mod into_par_collector;
mod par_collector;
mod par_collector_base;
mod par_collector_by_mut;
mod par_collector_by_ref;
pub mod adapters;
pub mod plumbing;

pub use adapter_methods::{ParallelCollectorAdapters, UnindexedParallelCollectorAdapters};
pub use adapters::into_collector::IntoCollector;
pub use custom::{Custom, CustomAlsoUnindexed, HintFn, PathFns};
pub use into_par_collector::{
    IntoParallelCollector, IntoParallelCollectorBase, IntoUnindexedParallelCollector, IntoUnindexedParallelCollectorBase,
};
pub use par_collector::{
    ConsumerFnOnce, IndexedParallelCollector, ParallelCollector, UnindexedConsumerFnOnce, UnindexedParallelCollector,
};
pub use par_collector_base::{
    commits, commits_unindexed, hands_out, hands_out_unindexed, par_finishes, par_hints, ParallelCollectorBase,
    UnindexedParallelCollectorBase,
};
pub use par_collector_by_mut::ParallelCollectorByMut;
pub use par_collector_by_ref::ParallelCollectorByRef;
