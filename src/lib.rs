//! Run a command against a directory through a copy-on-write overlay.
//!
//! The library holds the decisions of a sandboxed run: which exit code the
//! orchestrator reports, how the scratch area and the mounts are described,
//! and the ordered sequence of steps (acquire, run, reconcile, release) as a
//! state machine that the program drives by performing each step.
pub mod exit;
pub mod laws;
pub mod layout;
pub mod run;

