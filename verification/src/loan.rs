//! Loan parameters, their validation, and the choice of payment formula.

use vstd::prelude::*;
use crate::double::Double;
use crate::error::LoanError;

verus! {

/// The three parameters of a loan. A value never changes once made: the
/// fields can be read, and there is no way to write them.
#[derive(Clone, Copy, Debug, PartialEq, Eq, Structural)]
pub struct Loan {
    principal: Double,
    annual_interest_rate: Double,
    term_years: u32,
}

/// What a `Loan` holds.
pub struct LoanView {
    /// The amount borrowed.
    pub principal: Double,
    /// Interest per year in percentage points: five percent is 5.
    pub annual_interest_rate: Double,
    /// The number of equal yearly payments.
    pub term_years: u32,
}

impl View for Loan {
    type V = LoanView;

    closed spec fn view(&self) -> LoanView {
        LoanView {
            principal: self.principal,
            annual_interest_rate: self.annual_interest_rate,
            term_years: self.term_years,
        }
    }
}

impl LoanView {
    /// The parameters are admissible: the principal is above zero or NaN, the
    /// rate is not below zero, and the term is at least one year.
    pub open spec fn is_valid(self) -> bool {
        &&& !self.principal.is_non_positive()
        &&& !self.annual_interest_rate.is_negative()
        &&& self.term_years != 0
    }
}

/// How the level yearly payment is computed from the yearly rate as a
/// fraction, which is the annual rate divided by one hundred.
#[derive(Clone, Copy, Debug, PartialEq, Eq, Structural)]
pub enum PaymentFormula {
    /// No interest accrues: the payment is the principal divided by the term.
    StraightLine,
    /// With `r` the yearly rate and `n` the term, the payment is
    /// `principal * r * (1 + r)^n / ((1 + r)^n - 1)`.
    Annuity,
}

impl PaymentFormula {
    /// The formula that belongs to a yearly rate.
    pub open spec fn chosen_for(yearly_rate: Double) -> PaymentFormula {
        if yearly_rate.is_zero() {
            PaymentFormula::StraightLine
        } else {
            PaymentFormula::Annuity
        }
    }

    /// Chooses the formula for a yearly rate: straight-line division exactly
    /// when the rate equals zero, of either sign. A NaN rate equals nothing
    /// and goes to the annuity formula.
    pub fn for_rate(yearly_rate: Double) -> (formula: PaymentFormula)
        ensures
            formula == PaymentFormula::chosen_for(yearly_rate),
    {
        if yearly_rate.eq_zero() {
            PaymentFormula::StraightLine
        } else {
            PaymentFormula::Annuity
        }
    }
}

impl Loan {
    /// Puts the three parameters together as they are, unexamined.
    pub fn new(principal: Double, annual_interest_rate: Double, term_years: u32) -> (loan: Loan)
        ensures
            loan@ == (LoanView { principal, annual_interest_rate, term_years }),
    {
        Loan { principal, annual_interest_rate, term_years }
    }

    /// The amount borrowed.
    pub fn principal(&self) -> (p: Double)
        ensures
            p == self@.principal,
    {
        self.principal
    }

    /// Interest per year in percentage points.
    pub fn annual_interest_rate(&self) -> (rate: Double)
        ensures
            rate == self@.annual_interest_rate,
    {
        self.annual_interest_rate
    }

    /// The number of equal yearly payments.
    pub fn term_years(&self) -> (years: u32)
        ensures
            years == self@.term_years,
    {
        self.term_years
    }
}

/// What validation answers: the first violation in the order principal, rate,
/// term, or the three values unchanged.
pub open spec fn validated(principal: Double, annual_interest_rate: Double, term_years: u32)
    -> Result<LoanView, LoanError> {
    if principal.is_non_positive() {
        Err(LoanError::InvalidPrincipal)
    } else if annual_interest_rate.is_negative() {
        Err(LoanError::InvalidRate)
    } else if term_years == 0 {
        Err(LoanError::InvalidTerm)
    } else {
        Ok(LoanView { principal, annual_interest_rate, term_years })
    }
}

/// An outcome of validation with the loan, if there is one, taken by its view.
pub open spec fn outcome_view(r: Result<Loan, LoanError>) -> Result<LoanView, LoanError> {
    match r {
        Ok(loan) => Ok(loan@),
        Err(e) => Err(e),
    }
}

/// Examines loan parameters before anything is computed from them. A
/// principal of zero or below is turned away first, then a rate below zero,
/// then a term of no years; what passes comes back as a loan.
pub fn validate(principal: Double, annual_interest_rate: Double, term_years: u32) -> (r: Result<
    Loan,
    LoanError,
>)
    ensures
        outcome_view(r) == validated(principal, annual_interest_rate, term_years),
        r is Ok <==> (LoanView { principal, annual_interest_rate, term_years }).is_valid(),
{
    if principal.le_zero() {
        return Err(LoanError::InvalidPrincipal);
    }
    if annual_interest_rate.lt_zero() {
        return Err(LoanError::InvalidRate);
    }
    if term_years == 0 {
        return Err(LoanError::InvalidTerm);
    }
    Ok(Loan::new(principal, annual_interest_rate, term_years))
}

} // verus!
