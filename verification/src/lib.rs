//! Verified core of a restaurant-reservation acquisition tool.
//!
//! The library holds the decision logic: choosing the best-matching
//! reservation slot, computing the wait until a booking window opens,
//! sequencing the remote calls of one booking attempt, and driving a
//! bounded retry loop. The surrounding application performs the actual
//! network traffic and hands the results back as plain values.

pub mod ascii;
pub mod caltime;
pub mod client;
pub mod clock;
pub mod resy_data;
pub mod retry;
pub mod schedule;
pub mod selector;
pub mod sequencer;
