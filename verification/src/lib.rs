//! An asynchronous, FIFO-fair mutual-exclusion primitive that guards a shared
//! buffer while coordinating with external completion signals, together with
//! the platform-description records the surrounding system queries.
//!
//! The lock never blocks a thread: every wait is expressed as "suspend and
//! register a wakeup", driven by an explicit, re-entrant poll operation.

pub mod error;
pub mod event;
pub mod platform;
pub mod queue;
pub mod rw_vec;
