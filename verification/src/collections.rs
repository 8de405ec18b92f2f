//! Parallel collectors for collections, and the building blocks that let a
//! collection keep its items in order while being filled in parallel.
pub mod btree_set;
pub mod linked_list;
pub mod linked_vec;
pub mod reservable_old;
