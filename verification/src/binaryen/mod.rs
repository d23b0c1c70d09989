//! The output side: instruction trees, the module builder and the block/edge
//! set handed to structured-control synthesis.

pub mod builder;
pub mod ir;
pub mod relooper;
pub mod semantics;
