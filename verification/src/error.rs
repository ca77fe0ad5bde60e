//! The failures that an operation on the pool can report.

use vstd::prelude::*;

verus! {

/// Why an operation on the pool was abandoned.
#[derive(Clone, Copy, Debug, PartialEq, Eq, Structural)]
pub enum AmmError {
    /// A parameter supplied by the caller is outside what the operation admits.
    PreconditionViolation,
    /// A checked addition, subtraction, multiplication, division or narrowing
    /// has no result in its integer type.
    ArithmeticError,
    /// The token custodian refused a retire or transfer request.
    CustodyRequestFailed,
}

impl AmmError {
    /// A short description of the failure.
    pub fn message(&self) -> (text: &'static str)
        ensures
            text@ == Self::message_of(*self)@,
    {
        match self {
            AmmError::PreconditionViolation => "a withdrawal parameter is out of range",
            AmmError::ArithmeticError => "an arithmetic operation has no result",
            AmmError::CustodyRequestFailed => "the token custodian refused a request",
        }
    }

    /// The text that [`AmmError::message`] returns for each failure.
    pub open spec fn message_of(error: AmmError) -> &'static str {
        match error {
            AmmError::PreconditionViolation => "a withdrawal parameter is out of range",
            AmmError::ArithmeticError => "an arithmetic operation has no result",
            AmmError::CustodyRequestFailed => "the token custodian refused a request",
        }
    }
}

} // verus!
