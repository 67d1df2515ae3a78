use vstd::prelude::*;

verus! {

/// A configuration problem found while reading the operator set or the
/// operand bound, before any question is asked.
#[derive(Copy, Clone, PartialEq, Eq, Structural, Debug)]
pub enum ConfigError {
    /// The operator set was empty.
    EmptyOperators,
    /// A character of the operator set is not one of `+ - * /`.
    InvalidOperatorChar(char),
    /// The bound string is not two decimal fields separated by one comma.
    MalformedBound,
    /// The bound's minimum exceeds its maximum.
    InvertedBound,
    /// The bound's maximum does not fit in a signed 32-bit operand.
    BoundTooLarge,
}

/// A failure while evaluating an operator on sampled operands.
#[derive(Copy, Clone, PartialEq, Eq, Structural, Debug)]
pub enum ArithmeticError {
    /// A division question drew a zero second operand.
    DivisionByZero,
}

} // verus!
