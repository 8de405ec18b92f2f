//! Adapters over parallel collectors.
mod shared;
pub mod into_collector;
pub mod take;
pub mod fuse;
pub mod tee_base;
pub mod tee;
pub mod tee_clone;
pub mod tee_funnel;
pub mod tee_mut;
pub mod enumerate;
pub mod take_any_while;
pub mod indexed_only;
pub mod unindexed_only;
pub mod also;
pub mod cloning;
pub mod copying;
pub mod filter;
pub mod filter_with;
pub mod map;
pub mod map_with;
pub mod map_output;
pub mod nest_local;
