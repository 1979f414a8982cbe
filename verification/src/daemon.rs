//! The daemon decision: either report the instance that already runs, or
//! hand back a launch plan for a detached relaunch of the executable.

use vstd::prelude::*;
use crate::messages::running_message;
use crate::procs::{has_other_instance, is_other_instance, status_message, ProcessInfo};

verus! {

/// Everything a caller needs to relaunch the executable detached: the
/// program path, its single argument, and where its output goes.
pub struct LaunchPlan {
    pub program: String,
    pub arg: String,
    pub log_dir: String,
    pub log_file: String,
}

/// The outcome of the daemon action's decision.
pub enum DaemonDecision {
    AlreadyRunning(String),
    Launch(LaunchPlan),
}

/// The path under which the executable relaunches itself.
pub open spec fn relaunch_path(app: Seq<char>) -> Seq<char> {
    "./"@ + app
}

/// The log file that receives the detached child's output.
pub open spec fn log_file_path(app: Seq<char>) -> Seq<char> {
    "./logs/"@ + app + ".log"@
}

/// The daemon action spawns a child exactly when the snapshot holds no
/// other instance.
pub open spec fn daemon_spawns(procs: Seq<ProcessInfo>, app: Seq<char>, self_pid: u32) -> bool {
    !has_other_instance(procs, app, self_pid)
}

/// The daemon action is idempotent: once a child (or any other
/// instance) is visible in the snapshot, a further invocation spawns
/// nothing.
pub proof fn lemma_daemon_idempotent(
    procs: Seq<ProcessInfo>,
    app: Seq<char>,
    self_pid: u32,
    child: int,
)
    requires
        0 <= child < procs.len(),
        procs[child].name@ == app,
        procs[child].pid != self_pid,
    ensures
        !daemon_spawns(procs, app, self_pid),
{
    assert(is_other_instance(procs[child], app, self_pid));
}

/// Decides the daemon action over a snapshot: report the instance that
/// already runs and spawn nothing, or plan a detached relaunch with the
/// single argument `start` and output sent to the executable's log file.
pub fn daemon_plan(app: &str, self_pid: u32, procs: &Vec<ProcessInfo>) -> (d: DaemonDecision)
    ensures
        match d {
            DaemonDecision::AlreadyRunning(msg) => !daemon_spawns(procs@, app@, self_pid) && (
            exists|i: int|
                0 <= i < procs@.len() && is_other_instance(procs@[i], app@, self_pid) && msg@
                    == running_message(procs@[i].pid, procs@[i].name@)) && (exists|pid: u32|
                msg@ == running_message(pid, app@)),
            DaemonDecision::Launch(plan) => daemon_spawns(procs@, app@, self_pid)
                && plan.program@ == relaunch_path(app@) && plan.arg@ == "start"@ && plan.log_dir@
                == "./logs"@ && plan.log_file@ == log_file_path(app@),
        },
{
    let (msg, is_running) = status_message(app, self_pid, procs);
    if is_running {
        DaemonDecision::AlreadyRunning(msg)
    } else {
        DaemonDecision::Launch(
            LaunchPlan {
                program: String::from_str("./").concat(app),
                arg: String::from_str("start"),
                log_dir: String::from_str("./logs"),
                log_file: String::from_str("./logs/").concat(app).concat(".log"),
            },
        )
    }
}

} // verus!
