//! One channel of the timer counter.
pub mod tc_ra;
