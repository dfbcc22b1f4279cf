//! Validation of client-reported times.

mod timing;

pub use timing::{abs_diff, timing_within, TimingValidator};
