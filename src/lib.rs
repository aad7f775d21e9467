//! A Fibonacci sequence generator over unsigned integer types of any width,
//! with a choice of what happens when a term no longer fits: the sequence
//! ends (checked policy) or the terms wrap around (wrapping policy).
use vstd::prelude::*;

pub mod big;
pub mod integer;
pub mod sequence;

pub use integer::UnsignedInteger;
pub use sequence::{fill_fibonacci_sequence, Fibonacci, OverflowPolicy};

verus! {

/// The error that arithmetic on an element type can report.
#[derive(Debug, Clone, Copy, PartialEq, Eq, Structural)]
pub enum ArithmeticError {
    Overflow,
}

impl ArithmeticError {
    /// A readable description of the error.
    pub fn message(&self) -> (r: String)
        ensures
            r@ == "Arithmetic operation overflowed"@,
    {
        match self {
            ArithmeticError::Overflow => String::from_str("Arithmetic operation overflowed"),
        }
    }
}

} // verus!
