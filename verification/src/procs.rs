//! The liveness check and the stop decision, computed over a snapshot of
//! the host's process table.

use vstd::prelude::*;
use crate::messages::{
    build_running_message, build_stopped_message, running_message, stopped_message,
    stopping_message,
};

verus! {

/// One entry of a process-table snapshot: a process identifier and the
/// process's name, as the operating system reports them.
#[derive(Clone, Debug)]
pub struct ProcessInfo {
    pub pid: u32,
    pub name: String,
}

/// An entry counts as another instance when its name equals the
/// executable's base name and it is not the calling process itself.
pub open spec fn is_other_instance(p: ProcessInfo, app: Seq<char>, self_pid: u32) -> bool {
    p.name@ == app && p.pid != self_pid
}

/// Whether the snapshot holds another instance of the executable.
pub open spec fn has_other_instance(procs: Seq<ProcessInfo>, app: Seq<char>, self_pid: u32) -> bool {
    exists|i: int| 0 <= i < procs.len() && is_other_instance(procs[i], app, self_pid)
}

/// How many entries of the snapshot are other instances.
pub open spec fn count_matching(procs: Seq<ProcessInfo>, app: Seq<char>, self_pid: u32) -> nat
    decreases procs.len(),
{
    if procs.len() == 0 {
        0
    } else {
        count_matching(procs.drop_last(), app, self_pid) + if is_other_instance(
            procs.last(),
            app,
            self_pid,
        ) {
            1nat
        } else {
            0nat
        }
    }
}

/// The lines the stop action announces: one per other instance, in
/// snapshot order.
pub open spec fn stop_report(procs: Seq<ProcessInfo>, app: Seq<char>, self_pid: u32) -> Seq<
    Seq<char>,
>
    decreases procs.len(),
{
    if procs.len() == 0 {
        Seq::empty()
    } else {
        let init = stop_report(procs.drop_last(), app, self_pid);
        if is_other_instance(procs.last(), app, self_pid) {
            init.push(stopping_message(procs.last().pid, procs.last().name@))
        } else {
            init
        }
    }
}

/// A line announces the termination of some process carrying the
/// executable's name.
pub open spec fn is_stopping_line(m: Seq<char>, app: Seq<char>) -> bool {
    exists|pid: u32| m == stopping_message(pid, app)
}

/// The liveness check never reports the calling process itself: a
/// snapshot in which every entry carrying the executable's name is the
/// caller's own holds no other instance.
pub proof fn lemma_never_reports_self(procs: Seq<ProcessInfo>, app: Seq<char>, self_pid: u32)
    requires
        forall|i: int|
            0 <= i < procs.len() && procs[i].name@ == app ==> procs[i].pid == self_pid,
    ensures
        !has_other_instance(procs, app, self_pid),
{
}

/// The stop action issues exactly one termination announcement per
/// other instance found, however many match.
pub proof fn lemma_one_request_per_match(procs: Seq<ProcessInfo>, app: Seq<char>, self_pid: u32)
    ensures
        stop_report(procs, app, self_pid).len() == count_matching(procs, app, self_pid),
    decreases procs.len(),
{
    if procs.len() > 0 {
        lemma_one_request_per_match(procs.drop_last(), app, self_pid);
    }
}

/// Every line of the stop report announces the termination of a process
/// that carries the executable's name.
pub proof fn lemma_stop_report_entries(
    procs: Seq<ProcessInfo>,
    app: Seq<char>,
    self_pid: u32,
    k: int,
)
    requires
        0 <= k < stop_report(procs, app, self_pid).len(),
    ensures
        is_stopping_line(stop_report(procs, app, self_pid)[k], app),
    decreases procs.len(),
{
    if procs.len() > 0 {
        let init = stop_report(procs.drop_last(), app, self_pid);
        if is_other_instance(procs.last(), app, self_pid) && k == init.len() {
            assert(stop_report(procs, app, self_pid)[k] == stopping_message(
                procs.last().pid,
                app,
            ));
        } else {
            lemma_stop_report_entries(procs.drop_last(), app, self_pid, k);
        }
    }
}

/// Answers the liveness check over a snapshot: a report and whether
/// another instance runs.  The first other instance in snapshot order is
/// the one reported.
pub fn status_message(app: &str, self_pid: u32, procs: &Vec<ProcessInfo>) -> (r: (String, bool))
    ensures
        r.1 == has_other_instance(procs@, app@, self_pid),
        !r.1 ==> r.0@ == stopped_message(app@),
        r.1 ==> (exists|i: int|
            0 <= i < procs@.len() && is_other_instance(procs@[i], app@, self_pid) && (forall|
                j: int,
            |
                0 <= j < i ==> !is_other_instance(procs@[j], app@, self_pid)) && r.0@
                == running_message(procs@[i].pid, procs@[i].name@)),
        r.1 ==> (exists|pid: u32| r.0@ == running_message(pid, app@)),
{
    let app_string = String::from_str(app);
    let mut i: usize = 0;
    while i < procs.len()
        invariant
            i <= procs.len(),
            app_string@ == app@,
            forall|j: int| 0 <= j < i ==> !is_other_instance(procs@[j], app@, self_pid),
        decreases procs.len() - i,
    {
        let p = &procs[i];
        if p.pid != self_pid && p.name == app_string {
            let msg = build_running_message(p.pid, p.name.as_str());
            proof {
                assert(is_other_instance(procs@[i as int], app@, self_pid));
                assert(msg@ == running_message(p.pid, app@));
            }
            return (msg, true);
        }
        i += 1;
    }
    (build_stopped_message(app), false)
}

} // verus!
