//! Resolving a version identifier to its installation directory.
use vstd::prelude::*;

use crate::host::{Host, Probe};
use crate::path::{join, joined};

verus! {

/// The directory, relative to the home directory, that holds every installation.
pub open spec fn installations_dir() -> Seq<char> {
    seq!['.', 'h', 'a', 'x', 'e']
}

/// The directory, relative to an installation, whose presence makes it usable.
pub open spec fn marker_dir() -> Seq<char> {
    seq!['s', 't', 'd']
}

/// The installations root of `host`, if its home directory is known.
pub open spec fn root_of(host: Host) -> Option<Seq<char>> {
    match host.home {
        Some(home) => Some(joined(home@, installations_dir(), host.platform.component_sep())),
        None => None,
    }
}

/// The directory of the installation of `version`.
pub open spec fn installation_of(host: Host, version: Seq<char>) -> Option<Seq<char>> {
    match root_of(host) {
        Some(root) => Some(joined(root, version, host.platform.component_sep())),
        None => None,
    }
}

/// The marker directory inside the installation of `version`.
pub open spec fn marker_of(host: Host, version: Seq<char>) -> Option<Seq<char>> {
    match installation_of(host, version) {
        Some(dir) => Some(joined(dir, marker_dir(), host.platform.component_sep())),
        None => None,
    }
}

/// Why a version could not be resolved to a usable installation.
#[derive(Clone, Debug, PartialEq, Eq)]
pub enum ValidationError {
    /// The home directory is unknown, so no installation can be located.
    RootUnavailable,
    /// Probing the marker directory failed; the text is the system's reason.
    ExistenceCheckFailed(String),
    /// The marker directory of this version is absent.
    NotInstalled { version: String },
}

/// `r` is the path `p`, or reports the missing root where there is no path.
pub open spec fn resolves_to(r: Result<String, ValidationError>, p: Option<Seq<char>>) -> bool {
    match p {
        Some(p) => r matches Ok(s) && s@ == p,
        None => r matches Err(ValidationError::RootUnavailable),
    }
}

/// `r` is the outcome of validating `version` on `host` when probing its
/// marker directory gave `marker`.
pub open spec fn validated(
    r: Result<String, ValidationError>,
    host: Host,
    version: Seq<char>,
    marker: Probe,
) -> bool {
    match installation_of(host, version) {
        None => r matches Err(ValidationError::RootUnavailable),
        Some(dir) => match marker {
            Probe::Present => r matches Ok(s) && s@ == dir,
            Probe::Absent => r matches Err(ValidationError::NotInstalled { version: v })
                && v@ == version,
            Probe::Failed(why) => r matches Err(ValidationError::ExistenceCheckFailed(m))
                && m@ == why@,
        },
    }
}

/// Validation consults the filesystem about one path only: the marker
/// directory, which is the installation directory with `std` added, so it lies
/// inside the installation that validation returns.
pub proof fn lemma_validation_probes_only_marker(host: Host, version: Seq<char>)
    ensures
        installation_of(host, version) is Some <==> marker_of(host, version) is Some,
        installation_of(host, version) matches Some(dir) ==> {
            let marker = marker_of(host, version)->0;
            &&& marker == joined(dir, marker_dir(), host.platform.component_sep())
            &&& marker.len() > dir.len()
            &&& marker.subrange(0, dir.len() as int) == dir
        },
{
    if let Some(dir) = installation_of(host, version) {
        let marker = marker_of(host, version)->0;
        assert(marker.subrange(0, dir.len() as int) =~= dir);
    }
}

/// Where the home directory is unknown, every validation fails with
/// [`ValidationError::RootUnavailable`], whatever the version and whatever a
/// probe reported.
pub proof fn lemma_unknown_home_blocks_validation(
    host: Host,
    version: Seq<char>,
    marker: Probe,
    r: Result<String, ValidationError>,
)
    requires
        host.home is None,
        validated(r, host, version, marker),
    ensures
        r matches Err(ValidationError::RootUnavailable),
{
}

/// A Haxe version, named by an opaque identifier such as `4.3.7`.
#[derive(Clone, Debug, PartialEq, Eq)]
pub struct HaxeVersion(pub String);

impl HaxeVersion {
    /// The directory that holds every installed version.
    pub fn get_haxe_installations(host: &Host) -> (r: Result<String, ValidationError>)
        ensures
            resolves_to(r, root_of(*host)),
    {
        proof {
            reveal_strlit(".haxe");
            assert(".haxe"@ =~= installations_dir());
        }
        match &host.home {
            Some(home) => Ok(join(home.as_str(), ".haxe", host.platform)),
            None => Err(ValidationError::RootUnavailable),
        }
    }

    /// The directory where the version named `path` is installed, whether or
    /// not it exists.
    pub fn get_version(host: &Host, path: &str) -> (r: Result<String, ValidationError>)
        ensures
            resolves_to(r, installation_of(*host, path@)),
    {
        let root = HaxeVersion::get_haxe_installations(host)?;
        Ok(join(root.as_str(), path, host.platform))
    }

    /// The directory where this version is installed, whether or not it exists.
    pub fn get_path(&self, host: &Host) -> (r: Result<String, ValidationError>)
        ensures
            resolves_to(r, installation_of(*host, self.0@)),
    {
        HaxeVersion::get_version(host, self.0.as_str())
    }

    /// The marker directory of this version: the path to probe before use.
    pub fn get_std_path(&self, host: &Host) -> (r: Result<String, ValidationError>)
        ensures
            resolves_to(r, marker_of(*host, self.0@)),
    {
        proof {
            reveal_strlit("std");
            assert("std"@ =~= marker_dir());
        }
        let dir = self.get_path(host)?;
        Ok(join(dir.as_str(), "std", host.platform))
    }

    /// The installation directory of this version, provided that probing its
    /// marker directory (see [`HaxeVersion::get_std_path`]) gave `marker`.
    pub fn get_path_installed(&self, host: &Host, marker: Probe) -> (r: Result<String, ValidationError>)
        ensures
            validated(r, *host, self.0@, marker),
    {
        let dir = self.get_path(host)?;
        match marker {
            Probe::Present => Ok(dir),
            Probe::Absent => Err(ValidationError::NotInstalled { version: self.0.clone() }),
            Probe::Failed(why) => Err(ValidationError::ExistenceCheckFailed(why)),
        }
    }
}

} // verus!
