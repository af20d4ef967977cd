//! Handing over to the installed program: where it runs, how it is
//! started, and the status this process ends with afterwards.

use vstd::prelude::*;
use crate::failure::LaunchFailure;

verus! {

/// What `std::path::Path::parent` finds for a path given as text, on the
/// platform this crate is built for: the path without its last component,
/// or nothing where the path ends in a root or a prefix or is empty.
pub uninterp spec fn parent_text(path: Seq<char>) -> Option<Seq<char>>;

/// Calls `std::path::Path::parent` on a path given as text. Trusted: the
/// answer is a function of the text alone, and a parent, where the path has
/// one, is the path without its last component, so it is a shorter
/// beginning of the path.
#[verifier::external_body]
fn parent_of(path: &str) -> (parent: Option<String>)
    ensures
        parent matches Some(p) ==> parent_text(path@) == Some(p@) && p@.len() < path@.len()
            && p@.is_prefix_of(path@),
        parent is None ==> parent_text(path@) is None,
{
    match std::path::Path::new(path).parent() {
        Some(p) => match p.to_str() {
            Some(t) => Some(t.to_string()),
            None => None,
        },
        None => None,
    }
}

/// How to start the installed program.
#[derive(Debug, PartialEq, Eq)]
pub struct LaunchPlan {
    /// The executable.
    pub program: String,
    /// The directory it runs in: the one that holds the executable.
    pub working_dir: String,
    /// Whether the child shares this process's standard input, output and
    /// error. It never does: the three are closed off.
    pub inherit_streams: bool,
}

/// The plan for a program whose parent directory is `parent`.
pub open spec fn planned_launch(exe_path: String, parent: Option<String>) -> Result<
    LaunchPlan,
    LaunchFailure,
> {
    match parent {
        Some(dir) => Ok(LaunchPlan { program: exe_path, working_dir: dir, inherit_streams: false }),
        None => Err(LaunchFailure::MissingParentDirectory),
    }
}

/// The status this process ends with once the start was attempted.
pub open spec fn exit_code(spawned: bool) -> i32 {
    if spawned {
        0
    } else {
        1
    }
}

/// Lays out the start of a program, given the parent directory of its
/// path: without one there is nowhere to run it and nothing is started.
pub fn plan_launch(exe_path: String, parent: Option<String>) -> (outcome: Result<
    LaunchPlan,
    LaunchFailure,
>)
    ensures
        outcome == planned_launch(exe_path, parent),
{
    match parent {
        Some(dir) => Ok(LaunchPlan { program: exe_path, working_dir: dir, inherit_streams: false }),
        None => Err(LaunchFailure::MissingParentDirectory),
    }
}

/// Lays out the start of the program at `exe_path`: it runs detached, in
/// the directory that holds it. A plan is owed exactly when the path has a
/// parent directory; a path without one, the empty one among them, is
/// refused and nothing is started.
pub fn launch(exe_path: String) -> (outcome: Result<LaunchPlan, LaunchFailure>)
    ensures
        outcome is Ok <==> parent_text(exe_path@) is Some,
        outcome matches Ok(plan) ==> plan.program == exe_path && !plan.inherit_streams && Some(
            plan.working_dir@,
        ) == parent_text(exe_path@) && plan.working_dir@.len() < exe_path@.len()
            && plan.working_dir@.is_prefix_of(exe_path@),
        outcome matches Err(failure) ==> failure == LaunchFailure::MissingParentDirectory,
        exe_path@.len() == 0 ==> outcome is Err,
{
    let parent = parent_of(exe_path.as_str());
    plan_launch(exe_path, parent)
}

/// The status to end this process with after the start was attempted:
/// zero if the program was started, one if it could not be.
pub fn exit_status(spawned: bool) -> (code: i32)
    ensures
        code == exit_code(spawned),
{
    if spawned {
        0
    } else {
        1
    }
}

} // verus!
