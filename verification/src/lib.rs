//! Machine-instruction layer for a compact register-based bytecode target.
//!
//! The crate represents every target instruction as a typed value, reports
//! each instruction's register reads and writes to a register allocator
//! through a visitor protocol, classifies control-flow behaviour for block
//! layout, and patches relative branch and call targets once final code
//! addresses are known.

pub mod inst;
pub mod labels;
pub mod mach;
pub mod operands;
pub mod print;
pub mod raw;
pub mod regs;
pub mod types;
