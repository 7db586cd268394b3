//! What the library is told about the machine it serves.
use vstd::prelude::*;

use crate::path::Platform;

verus! {

/// The parts of the process environment that resolution and launching read.
#[derive(Clone, Debug, PartialEq, Eq)]
pub struct Host {
    /// The user's home directory, or `None` where the platform cannot name one.
    pub home: Option<String>,
    /// The current search-path list, or `None` where it is unset.
    pub search_path: Option<String>,
    /// The separator conventions in force.
    pub platform: Platform,
}

/// The result of asking the filesystem whether a path exists.
#[derive(Clone, Debug, PartialEq, Eq)]
pub enum Probe {
    /// The path exists.
    Present,
    /// The path does not exist.
    Absent,
    /// The question could not be answered; the text says why.
    Failed(String),
}

} // verus!
