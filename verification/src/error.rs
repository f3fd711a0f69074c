//! Why a set of loan parameters is turned away.

use vstd::prelude::*;

verus! {

/// The reason for which loan parameters are rejected.
#[derive(Clone, Copy, Debug, PartialEq, Eq, Structural)]
pub enum LoanError {
    /// The principal is zero or negative.
    InvalidPrincipal,
    /// The interest rate is negative.
    InvalidRate,
    /// The term is zero years.
    InvalidTerm,
}

impl LoanError {
    /// The text shown to a user for this error.
    pub open spec fn message_text(self) -> Seq<char> {
        match self {
            LoanError::InvalidPrincipal => "Principal must be positive"@,
            LoanError::InvalidRate => "Interest rate cannot be negative"@,
            LoanError::InvalidTerm => "Term must be at least one year"@,
        }
    }

    /// The text shown to a user for this error, as a string.
    pub fn message(&self) -> (text: String)
        ensures
            text@ == self.message_text(),
    {
        match self {
            LoanError::InvalidPrincipal => "Principal must be positive".to_string(),
            LoanError::InvalidRate => "Interest rate cannot be negative".to_string(),
            LoanError::InvalidTerm => "Term must be at least one year".to_string(),
        }
    }
}

} // verus!
