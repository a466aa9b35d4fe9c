//! Heterogeneous data structures and the index types that address them.

pub mod hlist;
pub mod htree;
pub mod indices;
