use vstd::prelude::*;

verus! {

/// Failures that the valuation routines report to their callers.
#[derive(Debug, Clone, Copy, PartialEq, Eq, Structural)]
pub enum ValuationError {
    /// A cashflow schedule without any entry.
    EmptySchedule,
    /// The date text at this position of the input is not a calendar date.
    InvalidDate { index: usize },
    /// A model parameter is outside the range where the model is defined.
    InvalidParameter,
    /// An iterative solver used up its iteration budget.
    NonConvergence,
}

} // verus!
