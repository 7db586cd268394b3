//! The one-line project configuration file that names a version.
use vstd::prelude::*;

use crate::host::{Host, Probe};
use crate::resolver::{installation_of, validated, HaxeVersion, ValidationError};

verus! {

/// The configuration file used when the caller names none.
pub open spec fn default_config_path() -> Seq<char> {
    seq!['.', 'm', 'a', 's', 'k']
}

/// The version a configuration holds when none could be read.
pub open spec fn default_version() -> Seq<char> {
    seq!['4', '.', '3', '.', '7']
}

/// Keeps every character but the newline.
pub open spec fn newline_kept() -> spec_fn(char) -> bool {
    |c: char| c != '\n'
}

/// `s` with every newline removed.
pub open spec fn strip_newlines(s: Seq<char>) -> Seq<char> {
    s.filter(newline_kept())
}

/// `s` holds no newline.
pub open spec fn single_line(s: Seq<char>) -> bool {
    forall|k: int| 0 <= k < s.len() ==> s[k] != '\n'
}

proof fn lemma_strip_push(s: Seq<char>, c: char)
    ensures
        strip_newlines(s.push(c)) == if c == '\n' {
            strip_newlines(s)
        } else {
            strip_newlines(s).push(c)
        },
{
    reveal(Seq::filter);
    assert(s.push(c).drop_last() =~= s);
}

proof fn lemma_strip_single_line(s: Seq<char>)
    requires
        single_line(s),
    ensures
        strip_newlines(s) == s,
    decreases s.len(),
{
    if s.len() > 0 {
        let init = s.drop_last();
        lemma_strip_single_line(init);
        lemma_strip_push(init, s.last());
        assert(init.push(s.last()) =~= s);
    } else {
        reveal(Seq::filter);
    }
}

/// The file contents `contents` with every newline removed.
pub fn parse_contents(contents: &str) -> (r: String)
    ensures
        r@ == strip_newlines(contents@),
{
    let n = contents.unicode_len();
    let mut out = String::new();
    let mut start: usize = 0;
    let mut i: usize = 0;
    while i < n
        invariant
            n == contents@.len(),
            start <= i <= n,
            out@ == strip_newlines(contents@.subrange(0, start as int)),
            single_line(contents@.subrange(start as int, i as int)),
        decreases n - i,
    {
        if contents.get_char(i) == '\n' {
            let line = contents.substring_char(start, i);
            proof {
                let s = contents@;
                let head = s.subrange(0, start as int);
                let mid = s.subrange(start as int, i as int);
                assert(s.subrange(0, i as int) =~= head + mid);
                assert(s.subrange(0, i as int + 1) =~= s.subrange(0, i as int).push('\n'));
                lemma_strip_push(s.subrange(0, i as int), '\n');
                Seq::filter_distributes_over_add(head, mid, newline_kept());
                lemma_strip_single_line(mid);
            }
            out.append(line);
            start = i + 1;
        }
        proof {
            let s = contents@;
            let seen = s.subrange(start as int, i as int + 1);
            assert forall|k: int| 0 <= k < seen.len() implies #[trigger] seen[k] != '\n' by {
                if start as int + k < i {
                    assert(s.subrange(start as int, i as int)[k] == s[start as int + k]);
                }
            }
        }
        i = i + 1;
    }
    let rest = contents.substring_char(start, n);
    proof {
        let s = contents@;
        let head = s.subrange(0, start as int);
        let tail = s.subrange(start as int, n as int);
        assert(s =~= head + tail);
        Seq::filter_distributes_over_add(head, tail, newline_kept());
        lemma_strip_single_line(tail);
    }
    out.append(rest);
    out
}

/// Reading back what [`Config::write`] stored gives the version written,
/// whether or not the file gained a trailing newline on the way, for every
/// version of a single line.
pub proof fn lemma_config_round_trip(version: Seq<char>)
    requires
        single_line(version),
    ensures
        strip_newlines(version) == version,
        strip_newlines(version.push('\n')) == version,
{
    lemma_strip_single_line(version);
    lemma_strip_push(version, '\n');
}

/// Why a configuration could not be read or written.
#[derive(Clone, Debug, PartialEq, Eq)]
pub enum ConfigError {
    /// No configuration file exists at this path.
    Missing { path: String },
    /// The file could not be probed or read; the text is the system's reason.
    Unreadable(String),
    /// The file could not be written; the text is the system's reason.
    Unwritable(String),
    /// Writing was refused because the version is not a usable installation.
    Rejected(ValidationError),
}

/// A file write that the caller is to carry out.
#[derive(Clone, Debug, PartialEq, Eq)]
pub struct WriteRequest {
    /// The file to replace.
    pub path: String,
    /// Its new, complete contents.
    pub contents: String,
}

/// The configuration path to use: `path`, or `.mask` where it is `None`.
pub fn config_location<'a>(path: Option<&'a str>) -> (r: &'a str)
    ensures
        r@ == match path {
            Some(p) => p@,
            None => default_config_path(),
        },
{
    proof {
        reveal_strlit(".mask");
        assert(".mask"@ =~= default_config_path());
    }
    match path {
        Some(p) => p,
        None => ".mask",
    }
}

/// A project configuration: the version the project uses.
#[derive(Clone, Debug, PartialEq, Eq)]
pub struct Config(pub HaxeVersion);

impl Config {
    /// The configuration held by a file whose contents are `contents`.
    pub fn new(contents: &str) -> (r: Config)
        ensures
            r.0.0@ == strip_newlines(contents@),
    {
        Config(HaxeVersion(parse_contents(contents)))
    }

    /// The configuration path `config_location`, provided that probing it
    /// gave `probe` and the file is there.
    pub fn path<'a>(config_location: &'a str, probe: Probe) -> (r: Result<&'a str, ConfigError>)
        ensures
            probe is Present <==> r is Ok,
            r matches Ok(p) ==> p@ == config_location@,
            probe is Absent ==> (r matches Err(ConfigError::Missing { path }) && path@
                == config_location@),
            probe matches Probe::Failed(why) ==> (r matches Err(ConfigError::Unreadable(m)) && m@
                == why@),
    {
        match probe {
            Probe::Present => Ok(config_location),
            Probe::Absent => Err(ConfigError::Missing { path: String::from_str(config_location) }),
            Probe::Failed(why) => Err(ConfigError::Unreadable(why)),
        }
    }

    /// The write that makes the configuration at `path` (by default `.mask`)
    /// name `version`, without checking that the version is installed.
    pub fn write(path: Option<&str>, version: &str) -> (r: WriteRequest)
        ensures
            r.path@ == match path {
                Some(p) => p@,
                None => default_config_path(),
            },
            r.contents@ == version@,
    {
        WriteRequest {
            path: String::from_str(config_location(path)),
            contents: String::from_str(version),
        }
    }

    /// As [`Config::write`], but only where `version` validates on `host`,
    /// given that probing its marker directory gave `marker`.
    pub fn safe_write(path: Option<&str>, version: &str, host: &Host, marker: Probe) -> (r: Result<
        WriteRequest,
        ConfigError,
    >)
        ensures
            r is Ok <==> installation_of(*host, version@) is Some && marker is Present,
            r matches Ok(req) ==> {
                &&& req.path@ == match path {
                    Some(p) => p@,
                    None => default_config_path(),
                }
                &&& req.contents@ == version@
            },
            r matches Err(e) ==> (e matches ConfigError::Rejected(why) && validated(
                Err(why),
                *host,
                version@,
                marker,
            )),
    {
        let candidate = HaxeVersion(String::from_str(version));
        match candidate.get_path_installed(host, marker) {
            Ok(_) => Ok(Config::write(path, version)),
            Err(e) => Err(ConfigError::Rejected(e)),
        }
    }
}

impl Default for Config {
    /// The configuration of a project that names no version: `4.3.7`.
    fn default() -> (r: Config)
        ensures
            r.0.0@ == default_version(),
    {
        proof {
            reveal_strlit("4.3.7");
            assert("4.3.7"@ =~= default_version());
        }
        Config(HaxeVersion(String::from_str("4.3.7")))
    }
}

} // verus!
