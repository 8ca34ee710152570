use vstd::prelude::*;

use crate::error::ValuationError;

verus! {

/// Iteration budget of the rate-of-return solver when the caller names none.
pub const DEFAULT_MAX_STEPS: u32 = 10000;

/// What one Newton step of the rate solver produced.
#[derive(Debug, Clone, Copy, PartialEq, Eq, Structural)]
pub enum StepOutcome {
    /// The new rate differs from the previous one by less than the tolerance.
    WithinTolerance,
    /// The new rate is finite and differs by at least the tolerance.
    Moved,
    /// The new rate is not a finite number, as after a zero derivative.
    NonFinite,
}

/// What the solver does after a step.
#[derive(Debug, Clone, Copy, PartialEq, Eq, Structural)]
pub enum SearchVerdict {
    /// The newest rate is the answer.
    Accept,
    /// Take another step from the newest rate.
    Continue,
    /// Stop without an answer.
    Stop(ValuationError),
}

/// Progress of a Newton search for a rate: how many steps were taken out
/// of how many are allowed.
#[derive(Debug, Clone, Copy, PartialEq, Eq, Structural)]
pub struct RateSearch {
    pub steps: u32,
    pub max_steps: u32,
}

impl RateSearch {
    pub fn new(max_steps: u32) -> (r: RateSearch)
        ensures
            r.steps == 0,
            r.max_steps == max_steps,
    {
        RateSearch { steps: 0, max_steps }
    }

    /// True when no step is left in the budget.
    pub fn is_exhausted(&self) -> (r: bool)
        ensures
            r == (self.steps >= self.max_steps),
    {
        self.steps >= self.max_steps
    }

    /// Records one step and decides how the search goes on.
    ///
    /// A step within tolerance ends the search with its rate. A step that
    /// leaves the finite numbers is counted as failure to converge, as is a
    /// step that moved but used up the budget.
    pub fn advance(&mut self, outcome: StepOutcome) -> (r: SearchVerdict)
        requires
            old(self).steps < old(self).max_steps,
        ensures
            final(self).steps == old(self).steps + 1,
            final(self).max_steps == old(self).max_steps,
            r == match outcome {
                StepOutcome::WithinTolerance => SearchVerdict::Accept,
                StepOutcome::NonFinite => SearchVerdict::Stop(ValuationError::NonConvergence),
                StepOutcome::Moved => if final(self).steps < final(self).max_steps {
                    SearchVerdict::Continue
                } else {
                    SearchVerdict::Stop(ValuationError::NonConvergence)
                },
            },
    {
        self.steps = self.steps + 1;
        match outcome {
            StepOutcome::WithinTolerance => SearchVerdict::Accept,
            StepOutcome::NonFinite => SearchVerdict::Stop(ValuationError::NonConvergence),
            StepOutcome::Moved => {
                if self.steps < self.max_steps {
                    SearchVerdict::Continue
                } else {
                    SearchVerdict::Stop(ValuationError::NonConvergence)
                }
            },
        }
    }
}

} // verus!
