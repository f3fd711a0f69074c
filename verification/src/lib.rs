//! Fixed-rate, fixed-term loans with equal yearly payments.
//!
//! Amounts and rates are double-precision numbers, carried as their IEEE 754
//! bit patterns. The crate decides everything that can be decided from those
//! patterns: which parameters are admissible, which payment formula applies,
//! how the year-by-year schedule is laid out and which balance each entry
//! shows. Rounding arithmetic on the numbers themselves is left to the caller,
//! who reports each figure back as a bit pattern.

pub mod double;
pub mod error;
pub mod loan;
pub mod schedule;

pub use double::Double;
pub use error::LoanError;
pub use loan::{validate, Loan, LoanView, PaymentFormula};
pub use schedule::{Amortization, AmortizationEntry, AmortizationView};
