//! A small verified core for a demonstration harness that runs several
//! periodic log emitters and shuts them all down on the first termination
//! request.
//!
//! The verified library models the coordination pattern itself: a one-way,
//! idempotent cancellation signal; periodic tasks that emit one log line per
//! tick until they observe cancellation; a one-shot listener that flips the
//! signal on the first termination notification; and a join tracker that the
//! coordinator waits on. The asynchronous runtime, the OS signal plumbing and
//! the logger live in the surrounding binary, which drives these verified
//! state machines and formatters.

pub mod coordinator;
pub mod level;
pub mod listener;
pub mod signal;
pub mod routine;
pub mod textfmt;
