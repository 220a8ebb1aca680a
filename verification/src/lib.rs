//! Core of a dynamic-DNS updater: the decisions that keep one DNS address
//! record pointed at the host's current public address.
//!
//! The library performs no input or output. [`reconciler`] holds the loop
//! as a state machine that a driver feeds with events; [`cycle`] describes
//! and runs whole cycles of it; [`laws`] states what holds of every run.
//! [`record`] models what the DNS provider reports, [`address`] reads the
//! resolver's response, [`counter`] and [`schedule`] hold the timing.

pub mod address;
pub mod counter;
pub mod cycle;
pub mod laws;
pub mod reconciler;
pub mod record;
pub mod schedule;
