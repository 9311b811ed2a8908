//! Planning a relaunch: finding the loader artifact among the configuration
//! directory's entries, and building the command line with the agent injected.

use vstd::prelude::*;
use crate::classify::{args_view, copy_args};
use crate::text::{chars_of, has_prefix, starts_with_chars};

verus! {

/// What to do when a relaunch is asked for and no loader artifact is found.
#[derive(Clone, Copy, Debug, PartialEq, Eq, Structural)]
pub enum InjectionPolicy {
    /// Skip the relaunch and report nothing.
    SkipSilently,
    /// Report that injection is unavailable.
    Fail,
}

/// Why a relaunch could not take place.
#[derive(Clone, Copy, Debug, PartialEq, Eq, Structural)]
pub enum RelaunchError {
    /// The command line holds no executable.
    EmptyCommand,
    /// No loader artifact was found and the policy asks for a failure.
    InjectorUnavailable,
    /// The replacement process could not be started.
    SpawnFailed,
    /// The session's log file could not be created or written.
    LogFailed,
}

/// The first position at or after `i` whose entry name starts with the loader prefix.
pub open spec fn first_loader_from(names: Seq<Seq<char>>, i: int) -> Option<int>
    decreases names.len() - i,
{
    if i < 0 || i >= names.len() {
        None
    } else if has_prefix(names[i], "Weave-Loader"@) {
        Some(i)
    } else {
        first_loader_from(names, i + 1)
    }
}

/// The argument that activates the agent found at `path`.
pub open spec fn agent_arg(path: Seq<char>) -> Seq<char> {
    "-javaagent:"@ + path
}

/// The command line with the agent argument placed right after the executable.
pub open spec fn injected(args: Seq<Seq<char>>, path: Seq<char>) -> Seq<Seq<char>> {
    args.insert(1, agent_arg(path))
}

/// The position of the first directory entry whose name starts with the
/// loader prefix, if any.
pub fn pick_loader(names: &Vec<String>) -> (r: Option<usize>)
    ensures
        r matches Some(i) ==> i < names.len(),
        r == (match first_loader_from(args_view(names@), 0) {
            Some(i) => Some(i as usize),
            None => None::<usize>,
        }),
{
    let prefix = chars_of("Weave-Loader");
    let ghost view = args_view(names@);
    let mut i: usize = 0;
    while i < names.len()
        invariant
            i <= names.len(),
            view == args_view(names@),
            prefix@ == "Weave-Loader"@,
            first_loader_from(view, 0) == first_loader_from(view, i as int),
        decreases names.len() - i,
    {
        let name = chars_of(names[i].as_str());
        assert(view[i as int] == names@[i as int]@);
        if starts_with_chars(&name, &prefix) {
            return Some(i);
        }
        i += 1;
    }
    None
}

/// The argument that activates the agent found at `path`.
pub fn java_agent_arg(path: &str) -> (r: String)
    ensures
        r@ == agent_arg(path@),
{
    let mut r = String::from_str("-javaagent:");
    r.append(path);
    r
}

/// The command line with the agent argument inserted right after the
/// executable; every given argument keeps its relative order.
pub fn inject_agent(cmd: &Vec<String>, loader_path: &str) -> (r: Vec<String>)
    requires
        cmd.len() >= 1,
    ensures
        args_view(r@) == injected(args_view(cmd@), loader_path@),
{
    let mut r = copy_args(cmd);
    let agent = java_agent_arg(loader_path);
    let ghost before = r@;
    r.insert(1, agent);
    assert(args_view(r@) =~= injected(args_view(cmd@), loader_path@)) by {
        assert(args_view(before) == args_view(cmd@));
        assert forall|k: int| 0 <= k < r.len() implies args_view(r@)[k] == injected(
            args_view(cmd@),
            loader_path@,
        )[k] by {
            if k < 1 {
                assert(r@[k] == before[k]);
            } else if k > 1 {
                assert(r@[k] == before[k - 1]);
            }
        }
    }
    r
}

/// What a relaunch runs, by the command line, the loader artifact's path
/// when one was found, and the policy for a missing one.
pub open spec fn relaunch_plan(
    args: Seq<Seq<char>>,
    loader: Option<Seq<char>>,
    policy: InjectionPolicy,
) -> Result<Option<Seq<Seq<char>>>, RelaunchError> {
    if args.len() == 0 {
        Err(RelaunchError::EmptyCommand)
    } else {
        match loader {
            Some(path) => Ok(Some(injected(args, path))),
            None => match policy {
                InjectionPolicy::SkipSilently => Ok(None),
                InjectionPolicy::Fail => Err(RelaunchError::InjectorUnavailable),
            },
        }
    }
}

/// A planned relaunch, with each argument as a character sequence.
pub open spec fn plan_view(r: Result<Option<Vec<String>>, RelaunchError>) -> Result<
    Option<Seq<Seq<char>>>,
    RelaunchError,
> {
    match r {
        Ok(Some(c)) => Ok(Some(args_view(c@))),
        Ok(None) => Ok(None),
        Err(e) => Err(e),
    }
}

/// Decides what a relaunch runs: the injected command line when a loader
/// artifact was found, nothing or a failure (by `policy`) when none was.
pub fn plan_relaunch(cmd: &Vec<String>, loader_path: Option<&str>, policy: InjectionPolicy) -> (r:
    Result<Option<Vec<String>>, RelaunchError>)
    ensures
        plan_view(r) == relaunch_plan(
            args_view(cmd@),
            match loader_path {
                Some(p) => Some(p@),
                None => None,
            },
            policy,
        ),
{
    if cmd.len() == 0 {
        return Err(RelaunchError::EmptyCommand);
    }
    match loader_path {
        Some(path) => Ok(Some(inject_agent(cmd, path))),
        None => match policy {
            InjectionPolicy::SkipSilently => Ok(None),
            InjectionPolicy::Fail => Err(RelaunchError::InjectorUnavailable),
        },
    }
}

/// With a command line and no loader artifact, the skipping policy plans no
/// relaunch, so nothing is spawned, and reports no failure; the failing
/// policy reports that injection is unavailable.
pub proof fn lemma_missing_loader_spawns_nothing(args: Seq<Seq<char>>)
    requires
        args.len() >= 1,
    ensures
        relaunch_plan(args, None, InjectionPolicy::SkipSilently) == Ok::<
            Option<Seq<Seq<char>>>,
            RelaunchError,
        >(None),
        relaunch_plan(args, None, InjectionPolicy::Fail) == Err::<
            Option<Seq<Seq<char>>>,
            RelaunchError,
        >(RelaunchError::InjectorUnavailable),
{
}

} // verus!
