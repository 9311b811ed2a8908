//! Recognition and classification of game-client processes from their
//! executable name and command line.

use vstd::prelude::*;
use crate::text::{
    chars_of, contains_chars, eq_ignore_ascii_case, has_substring, same_ignoring_ascii_case,
};

verus! {

/// The kind of client a recognised instance runs.
#[derive(Clone, Copy, Debug, PartialEq, Eq, Structural)]
pub enum ClientType {
    LunarClient,
    Forge,
    Vanilla,
}

/// What the process table reports of one process.
#[derive(Clone, Debug)]
pub struct ProcessInfo {
    pub pid: u32,
    /// File name of the executable, where it has one that is valid text.
    pub exe_name: Option<String>,
    pub cmd: Vec<String>,
    pub cwd: String,
    pub start_time: u64,
}

/// A running process recognised as a game client.
#[derive(Clone, Debug)]
pub struct MinecraftInstance {
    pub pid: u32,
    pub cmd: Vec<String>,
    pub cwd: String,
    pub version: String,
    pub start_time: u64,
    pub client_type: ClientType,
    pub weave_attached: bool,
}

/// The command line as a sequence of character sequences.
pub open spec fn args_view(cmd: Seq<String>) -> Seq<Seq<char>> {
    cmd.map_values(|s: String| s@)
}

/// Some argument of `args` holds `marker`.
pub open spec fn any_arg_contains(args: Seq<Seq<char>>, marker: Seq<char>) -> bool {
    exists|i: int| 0 <= i < args.len() && has_substring(#[trigger] args[i], marker)
}

/// The executable names of the game runtime, compared without regard to ASCII case.
pub open spec fn is_runtime_exe(name: Seq<char>) -> bool {
    eq_ignore_ascii_case(name, "javaw.exe"@) || eq_ignore_ascii_case(name, "java"@)
}

/// The marker of the game-data directory.
pub open spec fn game_dir_marker() -> Seq<char> {
    ".minecraft"@
}

/// The marker of the injected loader artifact.
pub open spec fn loader_marker() -> Seq<char> {
    "Weave-Loader"@
}

/// The first index at or after `i` where `args` holds `tok`.
pub open spec fn first_index_from(args: Seq<Seq<char>>, tok: Seq<char>, i: int) -> Option<int>
    decreases args.len() - i,
{
    if i < 0 || i >= args.len() {
        None
    } else if args[i] == tok {
        Some(i)
    } else {
        first_index_from(args, tok, i + 1)
    }
}

/// The token right after the first `--version` token, if there is one.
pub open spec fn version_of(args: Seq<Seq<char>>) -> Option<Seq<char>> {
    match first_index_from(args, "--version"@, 0) {
        Some(i) => if i + 1 < args.len() {
            Some(args[i + 1])
        } else {
            None
        },
        None => None,
    }
}

/// The client kind, by the first marker that some argument holds.
pub open spec fn client_type_of(args: Seq<Seq<char>>) -> ClientType {
    if any_arg_contains(args, "lunar"@) {
        ClientType::LunarClient
    } else if any_arg_contains(args, "minecraftforge"@) {
        ClientType::Forge
    } else {
        ClientType::Vanilla
    }
}

/// What the process table says of a process besides its identifier: the
/// executable's file name, the command line, the working directory and the
/// start time.
pub type ProcAttrs = (Option<Seq<char>>, Seq<Seq<char>>, Seq<char>, u64);

/// The attributes of `p`, over plain values.
pub open spec fn attrs_of(p: ProcessInfo) -> ProcAttrs {
    (
        match p.exe_name {
            Some(n) => Some(n@),
            None => None,
        },
        args_view(p.cmd@),
        p.cwd@,
        p.start_time,
    )
}

/// A process with attributes `a` is a game-client instance that can be listed.
pub open spec fn attrs_accepted(a: ProcAttrs) -> bool {
    &&& a.0 matches Some(n) && is_runtime_exe(n)
    &&& any_arg_contains(a.1, game_dir_marker())
    &&& version_of(a.1) is Some
}

/// The process is a game-client instance that can be listed.
pub open spec fn accepted(p: ProcessInfo) -> bool {
    attrs_accepted(attrs_of(p))
}

/// `r` is the record made of process `pid` with attributes `a`.
pub open spec fn is_record_of(r: MinecraftInstance, pid: u32, a: ProcAttrs) -> bool {
    &&& r.pid == pid
    &&& args_view(r.cmd@) == a.1
    &&& r.cwd@ == a.2
    &&& version_of(a.1) == Some(r.version@)
    &&& r.start_time == a.3
    &&& r.client_type == client_type_of(a.1)
    &&& r.weave_attached == any_arg_contains(a.1, loader_marker())
}

/// `r` is the record made of process `p`.
pub open spec fn is_instance_of(r: MinecraftInstance, p: ProcessInfo) -> bool {
    is_record_of(r, p.pid, attrs_of(p))
}

/// A copy of the command line, argument by argument.
pub fn copy_args(cmd: &Vec<String>) -> (r: Vec<String>)
    ensures
        r.len() == cmd.len(),
        args_view(r@) == args_view(cmd@),
{
    let mut r: Vec<String> = Vec::new();
    let mut i: usize = 0;
    while i < cmd.len()
        invariant
            i <= cmd.len(),
            r.len() == i,
            forall|k: int| 0 <= k < i ==> (#[trigger] r@[k])@ == cmd@[k]@,
        decreases cmd.len() - i,
    {
        r.push(cmd[i].clone());
        i += 1;
    }
    assert(args_view(r@) =~= args_view(cmd@));
    r
}

fn args_chars(cmd: &Vec<String>) -> (r: Vec<Vec<char>>)
    ensures
        r.len() == cmd.len(),
        forall|k: int| 0 <= k < r.len() ==> (#[trigger] r@[k])@ == args_view(cmd@)[k],
{
    let mut r: Vec<Vec<char>> = Vec::new();
    let mut i: usize = 0;
    while i < cmd.len()
        invariant
            i <= cmd.len(),
            r.len() == i,
            forall|k: int| 0 <= k < i ==> (#[trigger] r@[k])@ == cmd@[k]@,
        decreases cmd.len() - i,
    {
        r.push(chars_of(cmd[i].as_str()));
        i += 1;
    }
    r
}

fn any_contains(args: &Vec<Vec<char>>, marker: &Vec<char>, Ghost(view): Ghost<Seq<Seq<char>>>) -> (r: bool)
    requires
        view.len() == args.len(),
        forall|k: int| 0 <= k < args.len() ==> (#[trigger] args@[k])@ == view[k],
    ensures
        r == any_arg_contains(view, marker@),
{
    let mut i: usize = 0;
    while i < args.len()
        invariant
            i <= args.len(),
            view.len() == args.len(),
            forall|k: int| 0 <= k < args.len() ==> (#[trigger] args@[k])@ == view[k],
            forall|k: int| 0 <= k < i ==> !has_substring(#[trigger] view[k], marker@),
        decreases args.len() - i,
    {
        if contains_chars(&args[i], marker) {
            return true;
        }
        i += 1;
    }
    false
}

fn same_chars(a: &Vec<char>, b: &Vec<char>) -> (r: bool)
    ensures
        r == (a@ == b@),
{
    if a.len() != b.len() {
        return false;
    }
    let mut i: usize = 0;
    while i < a.len()
        invariant
            a.len() == b.len(),
            i <= a.len(),
            forall|k: int| 0 <= k < i ==> a@[k] == b@[k],
        decreases a.len() - i,
    {
        if a[i] != b[i] {
            return false;
        }
        i += 1;
    }
    assert(a@ =~= b@);
    true
}

/// Position of the version token: the one right after the first `--version`.
fn version_position(args: &Vec<Vec<char>>, Ghost(view): Ghost<Seq<Seq<char>>>) -> (r: Option<usize>)
    requires
        view.len() == args.len(),
        forall|k: int| 0 <= k < args.len() ==> (#[trigger] args@[k])@ == view[k],
    ensures
        match r {
            Some(j) => j < args.len() && version_of(view) == Some(view[j as int]),
            None => version_of(view) is None,
        },
{
    let flag = chars_of("--version");
    let mut i: usize = 0;
    while i < args.len()
        invariant
            i <= args.len(),
            view.len() == args.len(),
            forall|k: int| 0 <= k < args.len() ==> (#[trigger] args@[k])@ == view[k],
            flag@ == "--version"@,
            first_index_from(view, "--version"@, 0) == first_index_from(view, "--version"@, i as int),
        decreases args.len() - i,
    {
        if same_chars(&args[i], &flag) {
            if i + 1 < args.len() {
                return Some(i + 1);
            }
            return None;
        }
        i += 1;
    }
    None
}

/// Recognises a game-client process and builds its record.
///
/// A process is kept when its executable is a game runtime, some argument
/// names the game-data directory, and a token follows the first `--version`.
/// The client kind goes by the first marker found, in a fixed order.
pub fn classify(p: &ProcessInfo) -> (r: Option<MinecraftInstance>)
    ensures
        r is Some <==> accepted(*p),
        r matches Some(inst) ==> is_instance_of(inst, *p),
{
    let ghost view = args_view(p.cmd@);
    let exe_ok = match &p.exe_name {
        Some(n) => {
            let name = chars_of(n.as_str());
            same_ignoring_ascii_case(&name, &chars_of("javaw.exe"))
                || same_ignoring_ascii_case(&name, &chars_of("java"))
        },
        None => false,
    };
    if !exe_ok {
        return None;
    }
    let args = args_chars(&p.cmd);
    if !any_contains(&args, &chars_of(".minecraft"), Ghost(view)) {
        return None;
    }
    let client_type = if any_contains(&args, &chars_of("lunar"), Ghost(view)) {
        ClientType::LunarClient
    } else if any_contains(&args, &chars_of("minecraftforge"), Ghost(view)) {
        ClientType::Forge
    } else {
        ClientType::Vanilla
    };
    let weave_attached = any_contains(&args, &chars_of("Weave-Loader"), Ghost(view));
    let version = match version_position(&args, Ghost(view)) {
        Some(j) => p.cmd[j].clone(),
        None => {
            return None;
        },
    };
    Some(MinecraftInstance {
        pid: p.pid,
        cmd: copy_args(&p.cmd),
        cwd: p.cwd.clone(),
        version,
        start_time: p.start_time,
        client_type,
        weave_attached,
    })
}

/// The processes among the first `n` of `procs` that are accepted, in order.
pub open spec fn accepted_prefix(procs: Seq<ProcessInfo>, n: int) -> Seq<ProcessInfo>
    decreases n,
{
    if n <= 0 || n > procs.len() {
        Seq::empty()
    } else {
        let sub = accepted_prefix(procs, n - 1);
        if accepted(procs[n - 1]) {
            sub.push(procs[n - 1])
        } else {
            sub
        }
    }
}

/// The accepted processes of a snapshot, in snapshot order.
pub open spec fn accepted_of(procs: Seq<ProcessInfo>) -> Seq<ProcessInfo> {
    accepted_prefix(procs, procs.len() as int)
}

/// The records of the game-client instances in a process snapshot, one per
/// accepted process, in snapshot order.
pub fn instances_of(procs: &Vec<ProcessInfo>) -> (r: Vec<MinecraftInstance>)
    ensures
        r.len() == accepted_of(procs@).len(),
        forall|j: int| 0 <= j < r.len() ==> is_instance_of(#[trigger] r@[j], accepted_of(procs@)[j]),
{
    let mut r: Vec<MinecraftInstance> = Vec::new();
    let mut i: usize = 0;
    while i < procs.len()
        invariant
            i <= procs.len(),
            r.len() == accepted_prefix(procs@, i as int).len(),
            forall|j: int| 0 <= j < r.len() ==> is_instance_of(#[trigger] r@[j], accepted_prefix(procs@, i as int)[j]),
        decreases procs.len() - i,
    {
        match classify(&procs[i]) {
            Some(inst) => {
                r.push(inst);
            },
            None => {},
        }
        i += 1;
    }
    r
}

/// Every process kept from a snapshot has a runtime executable and a version
/// token, and is one of the snapshot's processes.
pub proof fn lemma_kept_are_runtime_with_version(procs: Seq<ProcessInfo>, n: int)
    requires
        0 <= n <= procs.len(),
    ensures
        forall|j: int| 0 <= j < accepted_prefix(procs, n).len() ==> {
            let p = #[trigger] accepted_prefix(procs, n)[j];
            &&& accepted(p)
            &&& p.exe_name matches Some(e) && is_runtime_exe(e@)
            &&& version_of(args_view(p.cmd@)) is Some
            &&& procs.contains(p)
        },
    decreases n,
{
    if n > 0 {
        lemma_kept_are_runtime_with_version(procs, n - 1);
        let sub = accepted_prefix(procs, n - 1);
        assert forall|j: int| 0 <= j < accepted_prefix(procs, n).len() implies {
            let p = #[trigger] accepted_prefix(procs, n)[j];
            &&& accepted(p)
            &&& p.exe_name matches Some(e) && is_runtime_exe(e@)
            &&& version_of(args_view(p.cmd@)) is Some
            &&& procs.contains(p)
        } by {
            if j < sub.len() {
                assert(accepted_prefix(procs, n)[j] == sub[j]);
            } else {
                assert(accepted_prefix(procs, n)[j] == procs[n - 1]);
            }
        }
    }
}

proof fn lemma_kept_come_from_prefix(procs: Seq<ProcessInfo>, n: int)
    requires
        0 <= n <= procs.len(),
    ensures
        forall|j: int| 0 <= j < accepted_prefix(procs, n).len() ==> exists|a: int|
            0 <= a < n && procs[a] == #[trigger] accepted_prefix(procs, n)[j],
    decreases n,
{
    if n > 0 {
        lemma_kept_come_from_prefix(procs, n - 1);
        let sub = accepted_prefix(procs, n - 1);
        assert forall|j: int| 0 <= j < accepted_prefix(procs, n).len() implies exists|a: int|
            0 <= a < n && procs[a] == #[trigger] accepted_prefix(procs, n)[j] by {
            if j < sub.len() {
                assert(accepted_prefix(procs, n)[j] == sub[j]);
            } else {
                assert(accepted_prefix(procs, n)[j] == procs[n - 1]);
            }
        }
    }
}

/// Every accepted process among the first `n` of a snapshot is kept.
pub proof fn lemma_accepted_are_kept(procs: Seq<ProcessInfo>, n: int, i: int)
    requires
        0 <= i < n <= procs.len(),
        accepted(procs[i]),
    ensures
        exists|j: int| 0 <= j < accepted_prefix(procs, n).len() && #[trigger] accepted_prefix(procs, n)[j]
            == procs[i],
    decreases n,
{
    let cur = accepted_prefix(procs, n);
    if i == n - 1 {
        assert(cur[cur.len() - 1] == procs[i]);
    } else {
        lemma_accepted_are_kept(procs, n - 1, i);
        let sub = accepted_prefix(procs, n - 1);
        let j = choose|j: int| 0 <= j < sub.len() && #[trigger] sub[j] == procs[i];
        assert(cur[j] == procs[i]);
    }
}

/// Listing a snapshot whose identifiers are distinct gives records with
/// distinct identifiers.
pub proof fn lemma_kept_pids_distinct(procs: Seq<ProcessInfo>, n: int)
    requires
        0 <= n <= procs.len(),
        forall|a: int, b: int| 0 <= a < b < procs.len() ==> procs[a].pid != procs[b].pid,
    ensures
        forall|i: int, j: int| 0 <= i < j < accepted_prefix(procs, n).len() ==> accepted_prefix(procs, n)[i].pid
            != accepted_prefix(procs, n)[j].pid,
    decreases n,
{
    if n > 0 {
        lemma_kept_pids_distinct(procs, n - 1);
        lemma_kept_come_from_prefix(procs, n - 1);
        let sub = accepted_prefix(procs, n - 1);
        let cur = accepted_prefix(procs, n);
        assert forall|i: int, j: int| 0 <= i < j < cur.len() implies cur[i].pid != cur[j].pid by {
            assert(cur[i] == sub[i]);
            if j < sub.len() {
                assert(cur[j] == sub[j]);
            } else {
                assert(cur[j] == procs[n - 1]);
                let a = choose|a: int| 0 <= a < n - 1 && procs[a] == #[trigger] sub[i];
                assert(procs[a].pid != procs[n - 1].pid);
            }
        }
    }
}

/// Listing a snapshot keeps no record whose process has an executable outside
/// the runtime names, and none without a `--version` token followed by a value.
pub proof fn lemma_listing_keeps_only_runtimes_with_version(procs: Seq<ProcessInfo>)
    ensures
        forall|j: int| 0 <= j < accepted_of(procs).len() ==> {
            let p = #[trigger] accepted_of(procs)[j];
            &&& accepted(p)
            &&& p.exe_name matches Some(e) && is_runtime_exe(e@)
            &&& version_of(args_view(p.cmd@)) is Some
            &&& procs.contains(p)
        },
{
    lemma_kept_are_runtime_with_version(procs, procs.len() as int);
}

/// Every command line gets exactly one client kind, by marker priority: the
/// named-client marker first, then the framework marker, else unmodified.
pub proof fn lemma_client_type_by_priority(args: Seq<Seq<char>>)
    ensures
        (client_type_of(args) == ClientType::LunarClient) <==> any_arg_contains(args, "lunar"@),
        (client_type_of(args) == ClientType::Forge) <==> (!any_arg_contains(args, "lunar"@)
            && any_arg_contains(args, "minecraftforge"@)),
        (client_type_of(args) == ClientType::Vanilla) <==> (!any_arg_contains(args, "lunar"@)
            && !any_arg_contains(args, "minecraftforge"@)),
{
}

} // verus!
