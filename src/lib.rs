//! Valuation toolkit: the calendar and control logic behind dated
//! present-value and rate-of-return computations.

pub mod calendar;
pub mod error;
pub mod schedule;
pub mod growth;
pub mod solver;
