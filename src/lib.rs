//! Convergent teardown of a supervisor and its process group.
//!
//! The library holds the decisions of the mechanism: which signal and group a
//! teardown targets, how that pair is kept in one atomic word, what each
//! trigger does, how reaped children become an exit code, when the polling
//! monitor acts, and the double-fork protocol as a state machine. The system
//! calls that carry the decisions out live with the caller.
use vstd::prelude::*;

pub mod cleanup;
pub mod daemon;
pub mod monitor;
pub mod reaper;
pub mod signal_kind;
pub mod target;
