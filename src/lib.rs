//! Version management for Haxe toolchains.
//!
//! Installed versions live in their own directories under an installations
//! root in the user's home directory. This library resolves a version
//! identifier to its installation, decides whether the installation is
//! usable from the result of probing its standard-library directory, and
//! plans the launch of a program inside it with a search path that prefers
//! the installation's own tools.
//!
//! Everything here is computation on plain values: the caller performs the
//! filesystem probes, file reads and writes, and process spawns, and hands
//! their results back.
pub mod cli;
pub mod config;
pub mod executor;
pub mod host;
pub mod path;
pub mod resolver;

pub use cli::{
    configured_version, exit_code, require_version, version_source, OutputLevel, SelectionError,
    VersionSource, EXIT_FAILURE, EXIT_NO_VERSION, EXIT_TERMINATED, EXIT_UNRECOGNIZED,
};
pub use config::{config_location, parse_contents, Config, ConfigError, WriteRequest};
pub use executor::{
    child_search_path, collect_status, haxe_exec, program_path, ExecError, SpawnRequest,
};
pub use host::{Host, Probe};
pub use path::{join, Platform};
pub use resolver::{HaxeVersion, ValidationError};
