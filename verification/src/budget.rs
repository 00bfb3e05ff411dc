//! Monthly AI credit budget, fully client-controlled.
//!
//! The client sets any limit it wants; routing picks the best *economical*
//! model under that cap, not just the best model.
use vstd::prelude::*;

verus! {

/// Monthly spend cap in cents, set by the client (any amount).
#[derive(Debug, Clone, Copy, PartialEq, Eq, Structural)]
pub struct MonthlyBudget {
    /// Max cents allowed per calendar month.
    pub limit_cents: u64,
    /// Cents already spent this month.
    pub spent_cents: u64,
}

/// Cents left of a limit after some spend, never below zero.
pub open spec fn left_of(limit: u64, spent: u64) -> u64 {
    if spent <= limit {
        (limit - spent) as u64
    } else {
        0
    }
}

/// Spend after recording more: the sum, held at `u64::MAX`.
pub open spec fn spent_after(spent: u64, more: u64) -> u64 {
    if spent + more <= u64::MAX {
        (spent + more) as u64
    } else {
        u64::MAX
    }
}

impl MonthlyBudget {
    /// Cents left this month, as a spec.
    pub open spec fn left(self) -> u64 {
        left_of(self.limit_cents, self.spent_cents)
    }

    /// Build a fresh monthly budget with zero spend; `None` for a zero limit.
    pub fn new(limit_cents: u64) -> (r: Option<Self>)
        ensures
            limit_cents == 0 <==> r is None,
            r matches Some(b) ==> b.limit_cents == limit_cents && b.spent_cents == 0,
    {
        if limit_cents == 0 {
            return None;
        }
        Some(MonthlyBudget { limit_cents, spent_cents: 0 })
    }

    /// Cents left this month (saturates at zero).
    pub fn remaining(&self) -> (r: u64)
        ensures
            r == self.left(),
    {
        self.limit_cents.saturating_sub(self.spent_cents)
    }

    /// True when an estimate fits inside this month's remainder.
    pub fn can_afford(&self, estimated_cents: u64) -> (r: bool)
        ensures
            r == (estimated_cents <= self.left()),
    {
        estimated_cents <= self.remaining()
    }

    /// Record spend (saturating: never wraps).
    pub fn record(&mut self, spent_cents: u64)
        ensures
            final(self).limit_cents == old(self).limit_cents,
            final(self).spent_cents == spent_after(old(self).spent_cents, spent_cents),
    {
        self.spent_cents = self.spent_cents.saturating_add(spent_cents);
    }
}

/// Recording two amounts in turn is recording their sum, held at `u64::MAX`.
pub proof fn law_record_adds_up(spent: u64, a: u64, b: u64)
    ensures
        spent_after(spent_after(spent, a), b) == (if spent + a + b <= u64::MAX {
            (spent + a + b) as u64
        } else {
            u64::MAX
        }),
{
}

/// Spending what the budget could afford takes exactly that much off the
/// remainder; spending never makes the remainder grow.
pub proof fn law_spend_reduces_remaining(b: MonthlyBudget, cents: u64)
    ensures
        left_of(b.limit_cents, spent_after(b.spent_cents, cents)) <= b.left(),
        cents <= b.left() ==> left_of(b.limit_cents, spent_after(b.spent_cents, cents)) == b.left()
            - cents,
{
}

} // verus!
