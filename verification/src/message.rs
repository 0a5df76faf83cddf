//! The records that pass between a caller and the dispatcher.

use vstd::prelude::*;
use crate::double::Double;

verus! {

/// The text that accompanies the refusal of a zero divisor.
pub const DIVISION_BY_ZERO: &'static str = "Division by zero is not allowed";

/// The six operations of the service.
#[derive(Clone, Copy, Debug, PartialEq, Eq, Structural)]
pub enum Operation {
    Add,
    Subtract,
    Multiply,
    Divide,
    Modulus,
    Exponentiate,
}

impl Operation {
    /// Whether the operation has no result when its second operand is zero.
    /// This holds of division and of the remainder, and of nothing else:
    /// the other four operations accept every pair of operands.
    pub open spec fn spec_excludes_zero_divisor(self) -> bool {
        self is Divide || self is Modulus
    }

    /// Tells whether a zero second operand must be refused.
    #[verifier::when_used_as_spec(spec_excludes_zero_divisor)]
    pub fn excludes_zero_divisor(self) -> (excluded: bool)
        ensures
            excluded == self.spec_excludes_zero_divisor(),
    {
        match self {
            Operation::Divide | Operation::Modulus => true,
            Operation::Add | Operation::Subtract | Operation::Multiply | Operation::Exponentiate => false,
        }
    }
}

/// The operand pair of a request: `a` is the left operand, `b` the right.
#[derive(Clone, Copy, Debug, PartialEq, Eq, Structural)]
pub struct TwoNumbers {
    pub a: Double,
    pub b: Double,
}

/// An admitted request: the operation to carry out and the operands to carry
/// it out on, exactly as they were received.
#[derive(Clone, Copy, Debug, PartialEq, Eq, Structural)]
pub struct Evaluation {
    pub operation: Operation,
    pub operands: TwoNumbers,
}

/// Why a request was refused. The service knows a single kind of failure,
/// the invalid argument, which carries a message for the caller.
#[derive(Debug, PartialEq, Eq)]
pub enum CalcError {
    InvalidArgument(String),
}

impl Clone for CalcError {
    fn clone(&self) -> (copy: CalcError)
        ensures
            copy == *self,
    {
        match self {
            CalcError::InvalidArgument(message) => CalcError::InvalidArgument(message.clone()),
        }
    }
}

impl CalcError {
    /// The message of the error.
    pub open spec fn spec_message(self) -> Seq<char> {
        match self {
            CalcError::InvalidArgument(message) => message@,
        }
    }

    /// Returns the message of the error.
    pub fn message(&self) -> (text: String)
        ensures
            text@ == self.spec_message(),
    {
        match self {
            CalcError::InvalidArgument(message) => message.clone(),
        }
    }
}

} // verus!
