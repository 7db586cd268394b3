//! Decisions of the command-line front end: which version a run uses, how
//! much it prints, and which exit code it reports.
use vstd::prelude::*;

use crate::config::{default_version, strip_newlines, Config, ConfigError};
use crate::executor::ExecError;
use crate::resolver::HaxeVersion;

verus! {

/// The exit code of a run that failed for a reason of its own.
pub const EXIT_FAILURE: i32 = 1;

/// The exit code of a run that could not settle on a version to use.
pub const EXIT_NO_VERSION: i32 = 2;

/// The exit code reported for a child that a signal ended.
pub const EXIT_TERMINATED: i32 = 143;

/// The exit code of a run whose command line names no known subcommand.
pub const EXIT_UNRECOGNIZED: i32 = 22;

/// Where the version of a run comes from.
#[derive(Clone, Debug, PartialEq, Eq)]
pub enum VersionSource {
    /// Named on the command line.
    Explicit(String),
    /// Named by the environment override.
    Environment(String),
    /// Read from the configuration file at the path given, or at the default
    /// path where none is.
    ConfigFile { path: Option<String> },
}

/// Picks the source of the version: an explicit version first, then the
/// environment override, then the configuration file.
pub fn version_source(
    explicit: Option<String>,
    env_override: Option<String>,
    config_path: Option<String>,
) -> (r: VersionSource)
    ensures
        explicit matches Some(v) ==> (r matches VersionSource::Explicit(x) && x == v),
        explicit is None ==> (env_override matches Some(v) ==> (
        r matches VersionSource::Environment(x) && x == v)),
        explicit is None && env_override is None ==> r == (VersionSource::ConfigFile {
            path: config_path,
        }),
{
    match explicit {
        Some(v) => VersionSource::Explicit(v),
        None => match env_override {
            Some(v) => VersionSource::Environment(v),
            None => VersionSource::ConfigFile { path: config_path },
        },
    }
}

/// The configuration of a run from the result of reading its file. Where the
/// read failed, a file named on the command line falls back to the default
/// configuration, and the default file gives none.
pub fn configured_version(path: &Option<String>, read: Result<String, ConfigError>) -> (r: Option<
    Config,
>)
    ensures
        read matches Ok(contents) ==> (r matches Some(c) && c.0.0@ == strip_newlines(contents@)),
        read is Err && path is Some ==> (r matches Some(c) && c.0.0@ == default_version()),
        read is Err && path is None ==> r is None,
{
    match read {
        Ok(contents) => Some(Config::new(contents.as_str())),
        Err(_) => match path {
            Some(_) => Some(Config::default()),
            None => None,
        },
    }
}

/// Why a run has no version to use.
#[derive(Clone, Debug, PartialEq, Eq)]
pub enum SelectionError {
    /// No configuration could be formed.
    Unconfigured,
    /// The configuration names the empty version.
    EmptyVersion,
}

/// The version of a run, which must exist and be non-empty.
pub fn require_version(config: Option<Config>) -> (r: Result<HaxeVersion, SelectionError>)
    ensures
        config is None ==> r matches Err(SelectionError::Unconfigured),
        config matches Some(c) ==> if c.0.0@.len() == 0 {
            r matches Err(SelectionError::EmptyVersion)
        } else {
            r matches Ok(v) && v.0@ == c.0.0@
        },
{
    match config {
        None => Err(SelectionError::Unconfigured),
        Some(c) => {
            if c.0.0.as_str().is_empty() {
                Err(SelectionError::EmptyVersion)
            } else {
                Ok(c.0)
            }
        },
    }
}

/// The exit code that reports the outcome of a launch: the child's own
/// code, [`EXIT_TERMINATED`] for a child ended by a signal, and
/// [`EXIT_FAILURE`] for a launch that did not happen.
pub fn exit_code(outcome: &Result<i32, ExecError>) -> (r: i32)
    ensures
        outcome matches Ok(code) ==> r == code,
        outcome matches Err(ExecError::Terminated) ==> r == EXIT_TERMINATED,
        outcome matches Err(e) && !(e is Terminated) ==> r == EXIT_FAILURE,
{
    match outcome {
        Ok(code) => *code,
        Err(ExecError::Terminated) => EXIT_TERMINATED,
        Err(_) => EXIT_FAILURE,
    }
}

/// How much a run prints.
#[derive(Clone, Copy, Debug, PartialEq, Eq, Structural)]
pub enum OutputLevel {
    /// Only the bare minimum.
    Quiet,
    /// Results, without internal details.
    Normal,
    /// Everything.
    Verbose,
}

impl OutputLevel {
    /// The position of the level, from quietest to most verbose.
    pub open spec fn rank(self) -> int {
        match self {
            OutputLevel::Quiet => 0,
            OutputLevel::Normal => 1,
            OutputLevel::Verbose => 2,
        }
    }

    /// The level chosen by the quiet and verbose flags: one of them alone
    /// picks its level, and neither or both give the normal level.
    pub fn from_flags(quiet: bool, verbose: bool) -> (r: OutputLevel)
        ensures
            r == if quiet && !verbose {
                OutputLevel::Quiet
            } else if verbose && !quiet {
                OutputLevel::Verbose
            } else {
                OutputLevel::Normal
            },
    {
        if quiet && !verbose {
            OutputLevel::Quiet
        } else if verbose && !quiet {
            OutputLevel::Verbose
        } else {
            OutputLevel::Normal
        }
    }

    /// Whether a message that asks for `required` is printed at this level.
    pub fn permits(&self, required: OutputLevel) -> (r: bool)
        ensures
            r == (self.rank() >= required.rank()),
    {
        let mine: u8 = match self {
            OutputLevel::Quiet => 0,
            OutputLevel::Normal => 1,
            OutputLevel::Verbose => 2,
        };
        let needed: u8 = match required {
            OutputLevel::Quiet => 0,
            OutputLevel::Normal => 1,
            OutputLevel::Verbose => 2,
        };
        mine >= needed
    }
}

} // verus!
