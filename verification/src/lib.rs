//! Health-aggregation probe library.
//!
//! Classifies the outcome of bounded-timeout probes against downstream
//! services into health tiers, keeps the most recent result per service in a
//! cache, and reduces a round of per-service results into one overall
//! verdict.

pub mod aggregate;
pub mod cache;
pub mod probe;
pub mod registry;
pub mod round;
pub mod status;
