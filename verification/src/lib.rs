//! Arbitration of an event loop's wake schedule.
//!
//! Windows and global event handlers each vote on when the loop should next
//! run. This crate merges the votes into one decision, latches close
//! requests, and hands the exit callback out exactly once.
//!
//! * [`policy`]: the votes, the decision, and the merge rule.
//! * [`event`]: what the loop needs to know of a platform event.
//! * [`arbiter`]: the loop's state and its transitions, as plain values.
//! * [`application`]: the registry of windows and handlers, and the
//!   dispatcher that feeds them one event at a time.

pub mod application;
pub mod arbiter;
pub mod event;
pub mod policy;
