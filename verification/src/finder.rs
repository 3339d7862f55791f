//! Looking the monitored process up in a snapshot of the process table.

use sysinfo::{PidExt, ProcessExt, System, SystemExt};
use vstd::prelude::*;

verus! {

/// Name under which the monitored process appears in the process table.
pub const TARGET_PROCESS: &'static str = "Roon.exe";

/// `sysinfo::System`, the snapshot of the operating system's process table.
/// Nothing inside it is visible here; what it holds is spoken of through
/// [`snapshot_processes`].
#[verifier::external_type_specification]
#[verifier::external_body]
pub struct ExSystem(System);

/// The processes a snapshot holds, each as the pair of its identifier, as
/// `sysinfo::PidExt::as_u32` gives it, and its name, as
/// `sysinfo::ProcessExt::name` gives it.
pub uninterp spec fn snapshot_processes(sys: System) -> Set<(u32, Seq<char>)>;

/// Calls `sysinfo::SystemExt::processes_by_exact_name` and hands out the
/// identifier of each process it yields.
///
/// That method walks the processes of the snapshot and yields those whose
/// name equals `name`. So the identifiers that come back are those of the
/// processes of the snapshot that bear exactly this name. They are walked
/// in the order of a hash map, so nothing is said of the order in which
/// they come.
#[verifier::external_body]
fn processes_by_exact_name(sys: &System, name: &str) -> (pids: Vec<u32>)
    ensures
        forall|pid: u32|
            #![trigger pids@.contains(pid)]
            #![trigger snapshot_processes(*sys).contains((pid, name@))]
            pids@.contains(pid) <==> snapshot_processes(*sys).contains((pid, name@)),
{
    sys.processes_by_exact_name(name).map(|process| process.pid().as_u32()).collect()
}

/// Whether some process of the snapshot bears exactly this name.
pub open spec fn runs(sys: System, name: Seq<char>) -> bool {
    exists|pid: u32| snapshot_processes(sys).contains((pid, name))
}

/// Whether `found` is a right answer to the question which process of the
/// snapshot bears this name: one that does, or none where none does.
pub open spec fn answers(sys: System, name: Seq<char>, found: Option<u32>) -> bool {
    match found {
        Some(pid) => snapshot_processes(sys).contains((pid, name)),
        None => !runs(sys, name),
    }
}

/// Finds a process by its exact name in a snapshot.
///
/// The name is matched as a whole and with its case. Where several processes
/// bear it, the one the snapshot yields first is reported.
pub fn find(sys: &System, name: &str) -> (found: Option<u32>)
    ensures
        answers(*sys, name@, found),
        found is Some <==> runs(*sys, name@),
{
    let pids = processes_by_exact_name(sys, name);
    if pids.len() > 0 {
        assert(pids@.contains(pids@[0]));
        Some(pids[0])
    } else {
        None
    }
}

/// Finds the monitored process in a snapshot.
pub fn find_target(sys: &System) -> (found: Option<u32>)
    ensures
        answers(*sys, TARGET_PROCESS@, found),
        found is Some <==> runs(*sys, TARGET_PROCESS@),
{
    find(sys, TARGET_PROCESS)
}

} // verus!
