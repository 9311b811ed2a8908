//! The process table: listing game-client instances, ending a process, and
//! the memory figures of this process and of the machine.

use vstd::prelude::*;
use sysinfo::{PidExt, ProcessExt, SystemExt};
use crate::classify::{
    accepted, attrs_accepted, attrs_of, instances_of, is_instance_of, is_record_of,
    MinecraftInstance, ProcessInfo,
};

verus! {

#[verifier::external_type_specification]
#[verifier::external_body]
pub struct ExSystem(sysinfo::System);

/// The identifiers of the processes in the snapshot that `s` holds.
pub uninterp spec fn table_pids(s: sysinfo::System) -> Set<u32>;

/// What the snapshot that `s` holds says of each process: the executable's
/// file name where it is valid text, the command line, the working directory
/// (invalid text replaced) and the start time.
pub uninterp spec fn table_procs(s: sysinfo::System) -> Map<
    u32,
    (Option<Seq<char>>, Seq<Seq<char>>, Seq<char>, u64),
>;

/// The resident memory, in bytes, of each process in the snapshot that `s` holds.
pub uninterp spec fn table_memory(s: sysinfo::System) -> Map<u32, u64>;

/// The machine's total memory, in bytes, as `s` holds it.
pub uninterp spec fn machine_memory(s: sysinfo::System) -> u64;

/// Relies on sysinfo's `SystemExt::refresh_processes_specifics`, which reads
/// the process table anew; nothing is known of what it then holds.
#[verifier::external_body]
fn refresh_table(sys: &mut sysinfo::System) {
    sys.refresh_processes_specifics(sysinfo::ProcessRefreshKind::new());
}

/// Relies on sysinfo's `SystemExt::processes`, a map keyed by process
/// identifier: one record per process of the snapshot, no identifier twice.
#[verifier::external_body]
fn snapshot(sys: &sysinfo::System) -> (r: Vec<ProcessInfo>)
    ensures
        forall|i: int| 0 <= i < r.len() ==> table_pids(*sys).contains(#[trigger] r@[i].pid),
        forall|pid: u32| #[trigger] table_pids(*sys).contains(pid) ==> exists|i: int|
            0 <= i < r.len() && r@[i].pid == pid,
        forall|i: int, j: int| 0 <= i < j < r.len() ==> r@[i].pid != r@[j].pid,
        forall|i: int| 0 <= i < r.len() ==> table_procs(*sys).contains_key(#[trigger] r@[i].pid)
            && table_procs(*sys)[r@[i].pid] == attrs_of(r@[i]),
{
    sys.processes().values().map(|p| ProcessInfo {
        pid: p.pid().as_u32(),
        exe_name: p.exe().file_name().and_then(|n| n.to_str()).map(|n| n.to_string()),
        cmd: p.cmd().to_vec(),
        cwd: p.cwd().to_string_lossy().to_string(),
        start_time: p.start_time(),
    }).collect()
}

/// Relies on sysinfo's `SystemExt::process` and `ProcessExt::kill`: a
/// process absent from the snapshot is not found, so nothing is signalled
/// and the result is false.
#[verifier::external_body]
fn signal_kill(sys: &sysinfo::System, pid: u32) -> (r: bool)
    ensures
        r ==> table_pids(*sys).contains(pid),
{
    sys.process(sysinfo::Pid::from_u32(pid)).is_some_and(|p| p.kill())
}

/// Relies on sysinfo's `SystemExt::total_memory`, which returns the figure
/// that `sys` holds: the machine's memory in bytes.
#[verifier::external_body]
fn total_memory(sys: &sysinfo::System) -> (r: u64)
    ensures
        r == machine_memory(*sys),
{
    sys.total_memory()
}

/// Relies on sysinfo's `get_current_pid`: this process's identifier, where
/// the platform gives one.
#[verifier::external_body]
fn current_pid() -> Option<u32> {
    sysinfo::get_current_pid().ok().map(|p| p.as_u32())
}

/// Relies on sysinfo's `SystemExt::process` and `ProcessExt::memory`: the
/// resident memory of a process of the snapshot; none for an absent one.
#[verifier::external_body]
fn process_memory(sys: &sysinfo::System, pid: u32) -> (r: Option<u64>)
    ensures
        r is Some <==> table_pids(*sys).contains(pid),
        r matches Some(m) ==> table_memory(*sys).contains_key(pid) && table_memory(*sys)[pid] == m,
{
    sys.process(sysinfo::Pid::from_u32(pid)).map(|p| p.memory())
}

/// Refreshes the process table and lists the game-client instances in it:
/// one record per accepted process of the table, built from that process.
pub fn fetch_minecraft_instances(sys: &mut sysinfo::System) -> (r: Vec<MinecraftInstance>)
    ensures
        forall|j: int| 0 <= j < r.len() ==> table_pids(*final(sys)).contains(#[trigger] r@[j].pid),
        forall|j: int| 0 <= j < r.len() ==> table_procs(*final(sys)).contains_key(#[trigger] r@[j].pid)
            && attrs_accepted(table_procs(*final(sys))[r@[j].pid]) && is_record_of(
            r@[j],
            r@[j].pid,
            table_procs(*final(sys))[r@[j].pid],
        ),
        forall|pid: u32| #[trigger] table_pids(*final(sys)).contains(pid) && attrs_accepted(
            table_procs(*final(sys))[pid],
        ) ==> exists|j: int| 0 <= j < r.len() && r@[j].pid == pid,
        forall|i: int, j: int| 0 <= i < j < r.len() ==> r@[i].pid != r@[j].pid,
{
    refresh_table(sys);
    let procs = snapshot(sys);
    let r = instances_of(&procs);
    proof {
        crate::classify::lemma_listing_keeps_only_runtimes_with_version(procs@);
        crate::classify::lemma_kept_pids_distinct(procs@, procs.len() as int);
        let kept = crate::classify::accepted_of(procs@);
        assert forall|j: int| 0 <= j < r.len() implies table_pids(*sys).contains(#[trigger] r@[j].pid)
            && table_procs(*sys).contains_key(r@[j].pid) && attrs_accepted(table_procs(*sys)[r@[j].pid])
            && is_record_of(r@[j], r@[j].pid, table_procs(*sys)[r@[j].pid]) by {
            let p = kept[j];
            let k = choose|k: int| 0 <= k < procs.len() && procs@[k] == p;
            assert(table_pids(*sys).contains(procs@[k].pid));
            assert(table_procs(*sys)[procs@[k].pid] == attrs_of(procs@[k]));
            assert(accepted(p) && is_instance_of(r@[j], p));
        }
        assert forall|pid: u32| #[trigger] table_pids(*sys).contains(pid) && attrs_accepted(
            table_procs(*sys)[pid],
        ) implies exists|j: int| 0 <= j < r.len() && r@[j].pid == pid by {
            let i = choose|i: int| 0 <= i < procs.len() && procs@[i].pid == pid;
            assert(table_procs(*sys)[procs@[i].pid] == attrs_of(procs@[i]));
            assert(accepted(procs@[i]));
            crate::classify::lemma_accepted_are_kept(procs@, procs.len() as int, i);
            let j = choose|j: int| 0 <= j < kept.len() && #[trigger] kept[j] == procs@[i];
            assert(is_instance_of(r@[j], kept[j]));
            assert(r@[j].pid == pid);
        }
    }
    r
}

/// Sends a termination signal to process `pid`; true when it was found in
/// the snapshot and signalled. An identifier absent from the snapshot gives
/// false, and the snapshot is left as it was.
pub fn kill_pid(sys: &sysinfo::System, pid: u32) -> (r: bool)
    ensures
        !table_pids(*sys).contains(pid) ==> !r,
{
    signal_kill(sys, pid)
}

/// Refreshes the process table and gives this process's resident memory and
/// the machine's total memory, in bytes; none when this process cannot be
/// found in the table.
pub fn get_memory_usage(sys: &mut sysinfo::System) -> (r: Option<(u64, u64)>)
    ensures
        r matches Some((used, total)) ==> {
            &&& total == machine_memory(*final(sys))
            &&& exists|pid: u32| #[trigger] table_pids(*final(sys)).contains(pid)
                && table_memory(*final(sys)).contains_key(pid) && table_memory(*final(sys))[pid] == used
        },
{
    refresh_table(sys);
    let total = total_memory(sys);
    match current_pid() {
        Some(pid) => match process_memory(sys, pid) {
            Some(used) => {
                Some((used, total))
            },
            None => None,
        },
        None => None,
    }
}

} // verus!
