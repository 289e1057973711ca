//! A reverse-Polish evaluator: a stack of numbers and four named binary
//! operations on its top two values.

pub mod calculator;
pub mod operations;

pub use crate::calculator::Calculator;
pub use crate::operations::{generate_operations, CalcError, Operation, Pending, Registry};
