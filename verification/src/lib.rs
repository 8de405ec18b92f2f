//! Verified parallel collectors: declarative, composable parallel reductions.
mod cell;
mod order;
pub mod cmp;
pub mod collections;
pub mod collector;

pub use cell::CellOptRefMut;
