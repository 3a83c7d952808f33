//! Daily prayer-time schedule library: a validated six-slot time table,
//! the current/next slot computation against a time of day, and the
//! freshness decision for a one-day on-disk cache.

pub mod cache;
pub mod clock;
pub mod presenter;
pub mod schedule;
pub mod timeofday;
