//! Operand modelling and text emission for an x86-64 assembler backend.
//!
//! Registers, immediates, memory expressions and labels are built as plain
//! values and rendered, one line at a time, in the source syntax of the
//! flat assembler.
pub mod decimal;
pub mod label;
pub mod operand;
pub mod register;
pub mod writer;
