//! Batch file removal: the decisions of a deletion run, its counters, and the
//! rendering of byte totals.

pub mod grouping;
pub mod engine;
pub mod verbosity;
