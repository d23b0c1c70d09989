//! Lowering of a typed, basic-block-structured mid-level program into a
//! structured-control-flow stack-machine module.
//!
//! `mir` describes the input program, `binaryen` the output module and its
//! instruction trees, `trans` the lowering pass between the two.

pub mod binaryen;
pub mod binops;
pub mod error;
pub mod mir;
pub mod trans;
