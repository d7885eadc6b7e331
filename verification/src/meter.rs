//! The cost meter: a budget from which the declared cost of each call is
//! taken before the call runs. What was taken is never given back.

use vstd::prelude::*;

verus! {

/// The budget does not cover the cost.
#[derive(Debug, Copy, Clone, PartialEq, Eq, Structural)]
pub struct OutOfBudget;

/// What charging `amount` against a budget of `remaining` answers, and what
/// is left of the budget after it.
pub open spec fn spec_charge(remaining: u64, amount: u64) -> (Result<(), OutOfBudget>, u64) {
    if amount > remaining {
        (Err(OutOfBudget), remaining)
    } else {
        (Ok(()), (remaining - amount) as u64)
    }
}

/// A budget, and what is left of it.
#[derive(Debug, Copy, Clone, PartialEq, Eq)]
pub struct CostMeter {
    remaining: u64,
}

impl View for CostMeter {
    type V = u64;

    closed spec fn view(&self) -> u64 {
        self.remaining
    }
}

impl CostMeter {
    /// A meter with `budget` to spend.
    pub fn new(budget: u64) -> (meter: CostMeter)
        ensures
            meter@ == budget,
    {
        CostMeter { remaining: budget }
    }

    /// What is left of the budget.
    pub fn remaining(&self) -> (left: u64)
        ensures
            left == self@,
    {
        self.remaining
    }

    /// Takes `amount` from the budget. If the budget does not cover it,
    /// nothing is taken. The budget never grows.
    pub fn charge(&mut self, amount: u64) -> (r: Result<(), OutOfBudget>)
        ensures
            (r, final(self)@) == spec_charge(old(self)@, amount),
            r is Err <==> amount > old(self)@,
            r is Err ==> final(self)@ == old(self)@,
            r is Ok ==> final(self)@ + amount == old(self)@,
            final(self)@ <= old(self)@,
    {
        if amount > self.remaining {
            Err(OutOfBudget)
        } else {
            self.remaining = self.remaining - amount;
            Ok(())
        }
    }
}

} // verus!
