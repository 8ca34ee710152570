use valuation::error::ValuationError;
use valuation::growth::terminal_exponent;
use valuation::solver::{RateSearch, SearchVerdict, StepOutcome, DEFAULT_MAX_STEPS};

#[test]
fn new_search_has_full_budget() {
    let s = RateSearch::new(DEFAULT_MAX_STEPS);
    assert_eq!(s.steps, 0);
    assert_eq!(s.max_steps, 10000);
    assert!(!s.is_exhausted());
    assert!(RateSearch::new(0).is_exhausted());
}

#[test]
fn step_within_tolerance_is_accepted() {
    let mut s = RateSearch::new(3);
    assert_eq!(s.advance(StepOutcome::Moved), SearchVerdict::Continue);
    assert_eq!(s.advance(StepOutcome::WithinTolerance), SearchVerdict::Accept);
    assert_eq!(s.steps, 2);
}

#[test]
fn non_finite_step_stops_the_search() {
    let mut s = RateSearch::new(10);
    assert_eq!(
        s.advance(StepOutcome::NonFinite),
        SearchVerdict::Stop(ValuationError::NonConvergence)
    );
}

#[test]
fn budget_runs_out() {
    let mut s = RateSearch::new(2);
    assert_eq!(s.advance(StepOutcome::Moved), SearchVerdict::Continue);
    assert_eq!(
        s.advance(StepOutcome::Moved),
        SearchVerdict::Stop(ValuationError::NonConvergence)
    );
    assert!(s.is_exhausted());
}

#[test]
fn terminal_exponent_follows_the_horizon() {
    assert_eq!(terminal_exponent(0), Some(1));
    assert_eq!(terminal_exponent(5), Some(6));
    assert_eq!(terminal_exponent(i32::MAX as u32 - 1), Some(i32::MAX));
    assert_eq!(terminal_exponent(i32::MAX as u32), None);
    assert_eq!(terminal_exponent(u32::MAX), None);
}
