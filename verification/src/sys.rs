//! The process-table surface: everything the helper asks of the
//! operating system, read and acted on through `sysinfo`.

use vstd::prelude::*;
use crate::procs::ProcessInfo;

verus! {

/// The process-table handle of `sysinfo`, carried opaquely.
#[verifier::external_type_specification]
#[verifier::external_body]
pub struct ExSystem(sysinfo::System);

/// Relies on sysinfo::System::new_all: a handle over the host's process
/// table, refreshed at the call.
#[verifier::external_body]
pub(crate) fn new_system() -> sysinfo::System {
    sysinfo::System::new_all()
}

/// Relies on sysinfo::System::processes, Process::pid and Process::name:
/// one entry per process the handle saw, with its identifier and name.
/// The snapshot depends on the machine's state at the refresh, so
/// nothing is promised of its contents.
#[verifier::external_body]
pub(crate) fn snapshot_of(sys: &sysinfo::System) -> Vec<ProcessInfo> {
    sys.processes().iter().map(
        |(pid, p)| ProcessInfo { pid: pid.as_u32(), name: p.name().to_string_lossy().into_owned() },
    ).collect()
}

/// Relies on sysinfo::get_current_pid: the calling process's own
/// identifier, or nothing on a platform that cannot report it.
#[verifier::external_body]
pub(crate) fn current_pid() -> Option<u32> {
    sysinfo::get_current_pid().ok().map(|pid| pid.as_u32())
}

/// Relies on sysinfo::System::process and Process::kill: asks the
/// process with the given identifier to terminate, best effort; reports
/// whether the signal was sent.
#[verifier::external_body]
pub(crate) fn kill_pid_in(sys: &sysinfo::System, pid: u32) -> bool {
    match sys.process(sysinfo::Pid::from_u32(pid)) {
        Some(p) => p.kill(),
        None => false,
    }
}

} // verus!
