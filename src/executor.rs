//! Planning the launch of a program that lives inside an installation.
use vstd::prelude::*;

use crate::host::{Host, Probe};
use crate::path::{entries, join, joined, lemma_entries_prepend};

verus! {

/// The program launched when the caller names none.
pub open spec fn default_program() -> Seq<char> {
    seq!['h', 'a', 'x', 'e']
}

/// The name of the program to launch.
pub open spec fn program_name(prog: Option<String>) -> Seq<char> {
    match prog {
        Some(p) => p@,
        None => default_program(),
    }
}

/// The text of an optional variable, empty where it is unset.
pub open spec fn text_or_empty(s: Option<String>) -> Seq<char> {
    match s {
        Some(s) => s@,
        None => Seq::empty(),
    }
}

/// The search path handed to a child launched from `dir`: `dir`, the list
/// separator, then the current search path unchanged.
pub open spec fn shadowed_search_path(dir: Seq<char>, host: Host) -> Seq<char> {
    dir + seq![host.platform.list_sep()] + text_or_empty(host.search_path)
}

/// The search path handed to a child begins with the installation directory
/// as an entry of its own, followed by every entry of the current search path,
/// unchanged and in order, under the same separator.
pub proof fn lemma_search_path_keeps_entries(dir: Seq<char>, host: Host)
    requires
        !dir.contains(host.platform.list_sep()),
    ensures
        shadowed_search_path(dir, host).subrange(0, dir.len() as int) == dir,
        entries(shadowed_search_path(dir, host), host.platform.list_sep()) == seq![dir] + entries(
            text_or_empty(host.search_path),
            host.platform.list_sep(),
        ),
{
    assert(shadowed_search_path(dir, host).subrange(0, dir.len() as int) =~= dir);
    lemma_entries_prepend(dir, host.platform.list_sep(), text_or_empty(host.search_path));
}

/// Everything needed to start the child process.
#[derive(Clone, Debug, PartialEq, Eq)]
pub struct SpawnRequest {
    /// The path of the executable.
    pub program: String,
    /// Its arguments, in order.
    pub args: Vec<String>,
    /// The value of its search-path variable.
    pub search_path: String,
}

/// Why a launch did not produce an exit code.
#[derive(Clone, Debug, PartialEq, Eq)]
pub enum ExecError {
    /// Probing the executable failed; the text is the system's reason.
    ExistenceCheckFailed(String),
    /// The executable does not exist at this path.
    ExecutableNotFound { path: String },
    /// The executable exists but could not be started; the text says why.
    SpawnFailed(String),
    /// The child was ended by a signal and has no exit code.
    Terminated,
}

/// The path of the executable `prog` (by default `haxe`) inside `installation`.
pub fn program_path(installation: &str, prog: &Option<String>, host: &Host) -> (r: String)
    ensures
        r@ == joined(installation@, program_name(*prog), host.platform.component_sep()),
{
    proof {
        reveal_strlit("haxe");
        assert("haxe"@ =~= default_program());
    }
    match prog {
        Some(p) => join(installation, p.as_str(), host.platform),
        None => join(installation, "haxe", host.platform),
    }
}

/// The search path for a child launched from `installation`, so that the
/// installation's own tools are found first by the child and by whatever it
/// starts in turn.
pub fn child_search_path(installation: &str, host: &Host) -> (r: String)
    ensures
        r@ == shadowed_search_path(installation@, *host),
{
    let mut out = String::from_str(installation);
    out.append(host.platform.list_separator());
    match &host.search_path {
        Some(current) => out.append(current.as_str()),
        None => {},
    }
    out
}

/// Plans the launch of `prog` (by default `haxe`) from the validated
/// `installation` with `args`, given that probing the executable's path (see
/// [`program_path`]) gave `program`. No spawn is planned unless the
/// executable is present.
pub fn haxe_exec(
    args: Vec<String>,
    installation: &str,
    prog: Option<String>,
    program: Probe,
    host: &Host,
) -> (r: Result<SpawnRequest, ExecError>)
    ensures
        program is Present <==> r is Ok,
        r matches Ok(req) ==> {
            &&& req.program@ == joined(
                installation@,
                program_name(prog),
                host.platform.component_sep(),
            )
            &&& req.args@ == args@
            &&& req.search_path@ == shadowed_search_path(installation@, *host)
        },
        program is Absent ==> (r matches Err(ExecError::ExecutableNotFound { path }) && path@
            == joined(installation@, program_name(prog), host.platform.component_sep())),
        program matches Probe::Failed(why) ==> (r matches Err(
            ExecError::ExistenceCheckFailed(m),
        ) && m@ == why@),
{
    let path = program_path(installation, &prog, host);
    match program {
        Probe::Present => Ok(
            SpawnRequest { program: path, args, search_path: child_search_path(installation, host) },
        ),
        Probe::Absent => Err(ExecError::ExecutableNotFound { path }),
        Probe::Failed(why) => Err(ExecError::ExistenceCheckFailed(why)),
    }
}

/// The outcome of a launch, from what starting and waiting for the child
/// reported: its exit code, `None` when a signal ended it, or why it could
/// not be started.
pub fn collect_status(spawned: Result<Option<i32>, String>) -> (r: Result<i32, ExecError>)
    ensures
        spawned matches Ok(Some(code)) ==> r == Ok::<i32, ExecError>(code),
        spawned matches Ok(None) ==> r matches Err(ExecError::Terminated),
        spawned matches Err(why) ==> (r matches Err(ExecError::SpawnFailed(m)) && m@ == why@),
{
    match spawned {
        Ok(Some(code)) => Ok(code),
        Ok(None) => Err(ExecError::Terminated),
        Err(why) => Err(ExecError::SpawnFailed(why)),
    }
}

} // verus!
