//! The year-by-year schedule of a loan, built one year at a time.

use vstd::prelude::*;
use crate::double::{lemma_clamp_monotone, lemma_clamped_sign, lemma_order, Double};
use crate::loan::Loan;

verus! {

/// One year of a schedule.
#[derive(Clone, Copy, Debug, PartialEq, Eq, Structural)]
pub struct AmortizationEntry {
    /// The year, counted from 1.
    pub year: u32,
    /// The yearly payment, the same in every entry.
    pub payment: Double,
    /// The part of the payment that reduces the balance.
    pub principal_paid: Double,
    /// The part of the payment that is interest on the balance at the start
    /// of the year.
    pub interest_paid: Double,
    /// The balance after this year's payment, shown as zero where the running
    /// balance is not above zero.
    pub remaining_balance: Double,
}

/// What an `Amortization` holds, as mathematics.
pub struct AmortizationView {
    pub term_years: nat,
    pub payment: Double,
    /// The running balances: the principal first, then the balance after each
    /// recorded year. They are never clamped: one may be negative, or NaN.
    pub balances: Seq<Double>,
    pub entries: Seq<AmortizationEntry>,
}

impl AmortizationView {
    /// The schedule of a loan before its first year.
    pub open spec fn opening(term_years: nat, principal: Double, payment: Double)
        -> AmortizationView {
        AmortizationView {
            term_years,
            payment,
            balances: Seq::empty().push(principal),
            entries: Seq::empty(),
        }
    }

    /// The running balance, on which the coming year's interest accrues.
    pub open spec fn balance(self) -> Double {
        self.balances.last()
    }

    /// The entry that a year's figures add to the schedule.
    pub open spec fn next_entry(
        self,
        interest_paid: Double,
        principal_paid: Double,
        balance: Double,
    ) -> AmortizationEntry {
        AmortizationEntry {
            year: (self.entries.len() + 1) as u32,
            payment: self.payment,
            principal_paid,
            interest_paid,
            remaining_balance: balance.clamped(),
        }
    }

    /// The state after a year's figures are recorded.
    pub open spec fn advanced(
        self,
        interest_paid: Double,
        principal_paid: Double,
        balance: Double,
    ) -> AmortizationView {
        AmortizationView {
            balances: self.balances.push(balance),
            entries: self.entries.push(self.next_entry(interest_paid, principal_paid, balance)),
            ..self
        }
    }

    /// There is an entry for every year of the term.
    pub open spec fn is_complete(self) -> bool {
        self.entries.len() == self.term_years
    }

    /// No more entries than years, and one running balance more than entries.
    /// Entry `i` is for year `i + 1`; it shows the common payment, and as
    /// remaining balance the running balance after that year, clamped at zero.
    pub open spec fn wf(self) -> bool {
        &&& self.term_years <= u32::MAX
        &&& self.entries.len() <= self.term_years
        &&& self.balances.len() == self.entries.len() + 1
        &&& forall|i: int|
            0 <= i < self.entries.len() ==> {
                &&& (#[trigger] self.entries[i]).year == i + 1
                &&& self.entries[i].payment == self.payment
                &&& self.entries[i].remaining_balance == self.balances[i + 1].clamped()
            }
    }
}

/// A schedule in the making. It starts with the principal as running balance
/// and no entries, takes the figures of one year after the other, and is
/// complete when it holds as many entries as the loan has years.
pub struct Amortization {
    term_years: u32,
    payment: Double,
    balance: Double,
    recorded: u32,
    entries: Vec<AmortizationEntry>,
    balances: Ghost<Seq<Double>>,
}

impl View for Amortization {
    type V = AmortizationView;

    closed spec fn view(&self) -> AmortizationView {
        AmortizationView {
            term_years: self.term_years as nat,
            payment: self.payment,
            balances: self.balances@,
            entries: self.entries@,
        }
    }
}

impl Amortization {
    /// The view is well formed, and the fields agree with it.
    pub closed spec fn wf(self) -> bool {
        &&& self@.wf()
        &&& self.recorded == self.entries@.len()
        &&& self.balance == self.balances@.last()
    }

    /// The running balance: the principal at first, then the balance that was
    /// recorded last, unclamped.
    pub fn balance(&self) -> (b: Double)
        requires
            self.wf(),
        ensures
            b == self@.balance(),
    {
        self.balance
    }

    /// The yearly payment that every entry shows.
    pub fn payment(&self) -> (p: Double)
        ensures
            p == self@.payment,
    {
        self.payment
    }

    /// The year whose figures come next, or `None` when every year is there.
    pub fn next_year(&self) -> (y: Option<u32>)
        requires
            self.wf(),
        ensures
            y == if self@.is_complete() {
                None
            } else {
                Some((self@.entries.len() + 1) as u32)
            },
    {
        if self.recorded < self.term_years {
            Some(self.recorded + 1)
        } else {
            None
        }
    }

    /// Whether the schedule holds an entry for every year of the term.
    pub fn is_complete(&self) -> (done: bool)
        requires
            self.wf(),
        ensures
            done == self@.is_complete(),
    {
        self.recorded >= self.term_years
    }

    /// Records the figures of the next year: the interest on the running
    /// balance, the rest of the payment, and the balance that is left. The
    /// entry shows that balance clamped at zero; the running balance keeps it
    /// as it is. A complete schedule takes nothing more and stays unchanged.
    pub fn record_year(&mut self, interest_paid: Double, principal_paid: Double, balance: Double)
        -> (recorded: bool)
        requires
            old(self).wf(),
        ensures
            final(self).wf(),
            final(self)@.wf(),
            recorded == !old(self)@.is_complete(),
            recorded ==> final(self)@ == old(self)@.advanced(interest_paid, principal_paid, balance),
            !recorded ==> final(self)@ == old(self)@,
    {
        if self.recorded >= self.term_years {
            return false;
        }
        let year: u32 = self.recorded + 1;
        let entry = AmortizationEntry {
            year,
            payment: self.payment,
            principal_paid,
            interest_paid,
            remaining_balance: balance.clamp_at_zero(),
        };
        self.entries.push(entry);
        self.recorded = year;
        self.balance = balance;
        self.balances = Ghost(self.balances@.push(balance));
        true
    }

    /// Hands out the schedule once it is complete: one entry per year of the
    /// term, for the years 1, 2, 3 and so on, none with a balance below zero.
    pub fn finish(self) -> (schedule: Option<Vec<AmortizationEntry>>)
        requires
            self.wf(),
        ensures
            schedule is Some <==> self@.is_complete(),
            schedule matches Some(s) ==> {
                &&& s@ == self@.entries
                &&& s@.len() == self@.term_years
                &&& forall|i: int| 0 <= i < s@.len() ==> (#[trigger] s@[i]).year == i + 1
                &&& forall|i: int| 0 <= i < s@.len() ==> (#[trigger] s@[i]).payment == self@.payment
                &&& forall|i: int|
                    0 <= i < s@.len() ==> !(#[trigger] s@[i]).remaining_balance.is_negative()
                        && !s@[i].remaining_balance.is_nan()
            },
    {
        if self.recorded >= self.term_years {
            proof {
                assert forall|i: int| 0 <= i < self.entries@.len() implies !(
                #[trigger] self.entries@[i]).remaining_balance.is_negative()
                    && !self.entries@[i].remaining_balance.is_nan() by {
                    lemma_shown_balance_not_negative(self@, i);
                }
            }
            Some(self.entries)
        } else {
            None
        }
    }
}

impl Loan {
    /// Opens the schedule of this loan for a yearly payment: no entry yet,
    /// and the principal as running balance.
    pub fn amortization_schedule(&self, payment: Double) -> (a: Amortization)
        ensures
            a.wf(),
            a@.wf(),
            a@ == AmortizationView::opening(self@.term_years as nat, self@.principal, payment),
    {
        Amortization {
            term_years: self.term_years(),
            payment,
            balance: self.principal(),
            recorded: 0,
            entries: Vec::new(),
            balances: Ghost(Seq::empty().push(self@.principal)),
        }
    }
}

/// In a well-formed schedule the years go up by one from entry to entry,
/// starting at 1, so a later entry always has the greater year, and none
/// lies beyond the term.
pub proof fn lemma_years_consecutive(v: AmortizationView, i: int, j: int)
    requires
        v.wf(),
        0 <= i < j < v.entries.len(),
    ensures
        v.entries[0].year == 1,
        v.entries[i].year < v.entries[j].year,
        v.entries[i + 1].year == v.entries[i].year + 1,
        v.entries[j].year <= v.term_years,
{
}

/// No entry of a well-formed schedule shows a balance below zero, or NaN.
pub proof fn lemma_shown_balance_not_negative(v: AmortizationView, i: int)
    requires
        v.wf(),
        0 <= i < v.entries.len(),
    ensures
        !v.entries[i].remaining_balance.is_negative(),
        !v.entries[i].remaining_balance.is_nan(),
        Double::positive_zero().is_le(v.entries[i].remaining_balance),
{
    lemma_clamped_sign(v.balances[i + 1]);
}

/// Where the running balance does not rise from year to year, a later running
/// balance is not above an earlier one.
pub proof fn lemma_running_balance_falls(balances: Seq<Double>, i: int, j: int)
    requires
        0 <= i < j < balances.len(),
        forall|k: int| i <= k < j ==> (#[trigger] balances[k + 1]).is_le(balances[k]),
    ensures
        balances[j].is_le(balances[i]),
    decreases j - i,
{
    if j > i + 1 {
        lemma_running_balance_falls(balances, i, j - 1);
        assert(balances[j - 1 + 1].is_le(balances[j - 1]));
        lemma_order(balances[j], balances[j - 1], balances[i]);
    } else {
        assert(balances[i + 1].is_le(balances[i]));
    }
}

/// The balance that the entries show does not rise from an earlier entry to a
/// later one, provided the running balance does not rise in the years between.
pub proof fn lemma_shown_balance_does_not_rise(v: AmortizationView, i: int, j: int)
    requires
        v.wf(),
        0 <= i < j < v.entries.len(),
        forall|k: int| i < k <= j ==> (#[trigger] v.balances[k + 1]).is_le(v.balances[k]),
    ensures
        v.entries[j].remaining_balance.is_le(v.entries[i].remaining_balance),
{
    lemma_running_balance_falls(v.balances, i + 1, j + 1);
    lemma_clamp_monotone(v.balances[j + 1], v.balances[i + 1]);
}

} // verus!
