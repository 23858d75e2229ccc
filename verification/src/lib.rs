//! Supervision of one backend helper process and the readiness gate that
//! decides when its user interface may be shown.
//!
//! The crate holds the decisions only: what to probe and when to give up,
//! what to write to the log, which display commands a toggle amounts to, and
//! who owns the process handle. Performing those actions (HTTP requests,
//! sleeping, spawning, killing, window calls) is left to the caller.

pub mod display;
pub mod readiness;
pub mod session;
pub mod supervisor;
