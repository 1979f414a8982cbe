//! A minimal process-lifecycle helper.
//!
//! The library decides, from a command line, whether the hosting
//! application should report its run state (`status`), terminate running
//! sibling instances (`stop`), relaunch itself detached with output sent
//! to a log file (`daemon`), run its workload (`start`), or print a usage
//! line (`help`).  The decision logic, the liveness check over a process
//! snapshot, and every message and path the helper emits are verified;
//! the process table itself is read through `sysinfo`.

use vstd::prelude::*;

pub mod action;
pub mod messages;
pub mod daemon;
pub mod lifecycle;
pub mod naming;
pub mod procs;
pub mod sys;

pub use crate::action::matching;
