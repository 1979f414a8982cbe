//! The dispatcher's entry points: each action's decision and reporting,
//! over a fresh snapshot of the host's process table.

use vstd::prelude::*;
use crate::daemon::{daemon_plan, log_file_path, relaunch_path, DaemonDecision};
use crate::messages::{
    build_stopped_message, build_stopping_message, running_message, stopped_message,
};
use crate::procs::{
    is_stopping_line, lemma_stop_report_entries, status_message, stop_report, ProcessInfo,
};
use crate::sys::{current_pid, kill_pid_in, new_system, snapshot_of};

verus! {

/// The liveness check: whether another instance of the executable runs,
/// with the one-line report of the original.  When the platform cannot
/// report the caller's own identifier, no process can be told apart
/// from the caller, so no other instance is reported.
pub fn status(app: &str) -> (r: (String, bool))
    ensures
        !r.1 ==> r.0@ == stopped_message(app@),
        r.1 ==> (exists|pid: u32| r.0@ == running_message(pid, app@)),
{
    let sys = new_system();
    let procs = snapshot_of(&sys);
    match current_pid() {
        Some(me) => status_message(app, me, &procs),
        None => (build_stopped_message(app), false),
    }
}

/// Requests the termination of every other instance found in the given
/// snapshot, and returns one announcement line per request, in snapshot
/// order.
pub fn stop_instances(
    sys: &sysinfo::System,
    app: &str,
    self_pid: u32,
    procs: &Vec<ProcessInfo>,
) -> (msgs: Vec<String>)
    ensures
        msgs@.len() == stop_report(procs@, app@, self_pid).len(),
        forall|k: int|
            0 <= k < msgs@.len() ==> msgs@[k]@ == stop_report(procs@, app@, self_pid)[k],
{
    let app_string = String::from_str(app);
    let mut msgs: Vec<String> = Vec::new();
    let mut i: usize = 0;
    while i < procs.len()
        invariant
            i <= procs.len(),
            app_string@ == app@,
            msgs@.len() == stop_report(procs@.take(i as int), app@, self_pid).len(),
            forall|k: int|
                0 <= k < msgs@.len() ==> msgs@[k]@ == stop_report(
                    procs@.take(i as int),
                    app@,
                    self_pid,
                )[k],
        decreases procs.len() - i,
    {
        let p = &procs[i];
        proof {
            assert(procs@.take(i as int + 1).drop_last() =~= procs@.take(i as int));
            assert(procs@.take(i as int + 1).last() == procs@[i as int]);
        }
        if p.pid != self_pid && p.name == app_string {
            let _ = kill_pid_in(sys, p.pid);
            let m = build_stopping_message(p.pid, p.name.as_str());
            msgs.push(m);
        }
        i += 1;
    }
    proof {
        assert(procs@.take(procs@.len() as int) =~= procs@);
    }
    msgs
}

/// The stop action: signals every other instance visible in a fresh
/// snapshot, best effort, and returns the announcement lines.  When the
/// caller's own identifier cannot be read, nothing can safely be told
/// apart from the caller, and nothing is signalled.
pub fn stop(app: &str) -> (msgs: Vec<String>)
    ensures
        forall|k: int| 0 <= k < msgs@.len() ==> is_stopping_line(#[trigger] msgs@[k]@, app@),
{
    let sys = new_system();
    let procs = snapshot_of(&sys);
    match current_pid() {
        Some(me) => {
            let msgs = stop_instances(&sys, app, me, &procs);
            proof {
                assert forall|k: int| 0 <= k < msgs@.len() implies is_stopping_line(
                    msgs@[k]@,
                    app@,
                ) by {
                    lemma_stop_report_entries(procs@, app@, me, k);
                }
            }
            msgs
        },
        None => Vec::new(),
    }
}

/// The daemon action's decision over a fresh snapshot: the report of the
/// instance that already runs, or the plan for a detached relaunch.
/// Nothing when the caller's own identifier cannot be read, in which
/// case the liveness check cannot be trusted and nothing is done.
pub fn daemon_decision(app: &str) -> (d: Option<DaemonDecision>)
    ensures
        match d {
            Some(DaemonDecision::AlreadyRunning(msg)) => exists|pid: u32|
                msg@ == running_message(pid, app@),
            Some(DaemonDecision::Launch(plan)) => plan.program@ == relaunch_path(app@)
                && plan.arg@ == "start"@ && plan.log_dir@ == "./logs"@ && plan.log_file@
                == log_file_path(app@),
            None => true,
        },
{
    let sys = new_system();
    let procs = snapshot_of(&sys);
    match current_pid() {
        Some(me) => Some(daemon_plan(app, me, &procs)),
        None => None,
    }
}

} // verus!
