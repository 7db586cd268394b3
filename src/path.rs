//! Filesystem paths and search-path lists, as text.
use vstd::prelude::*;

verus! {

/// The separator conventions of the host platform.
#[derive(Clone, Copy, Debug, PartialEq, Eq, Structural)]
pub enum Platform {
    /// `/` between path components, `:` between search-path entries.
    Posix,
    /// `\` between path components, `;` between search-path entries.
    Windows,
}

impl Platform {
    /// The character placed between two components of a path.
    pub open spec fn component_sep(self) -> char {
        match self {
            Platform::Posix => '/',
            Platform::Windows => '\\',
        }
    }

    /// The character placed between two entries of a search-path list.
    pub open spec fn list_sep(self) -> char {
        match self {
            Platform::Posix => ':',
            Platform::Windows => ';',
        }
    }

    pub fn path_separator(&self) -> (r: &'static str)
        ensures
            r@ == seq![self.component_sep()],
    {
        proof {
            reveal_strlit("/");
            reveal_strlit("\\");
        }
        match self {
            Platform::Posix => "/",
            Platform::Windows => "\\",
        }
    }

    pub fn component_separator(&self) -> (r: char)
        ensures
            r == self.component_sep(),
    {
        match self {
            Platform::Posix => '/',
            Platform::Windows => '\\',
        }
    }

    pub fn list_separator(&self) -> (r: &'static str)
        ensures
            r@ == seq![self.list_sep()],
    {
        proof {
            reveal_strlit(":");
            reveal_strlit(";");
        }
        match self {
            Platform::Posix => ":",
            Platform::Windows => ";",
        }
    }
}

/// `base` with the component `seg` added at its end: a separator goes between
/// the two unless `base` is empty or already ends in one.
pub open spec fn joined(base: Seq<char>, seg: Seq<char>, sep: char) -> Seq<char> {
    if base.len() == 0 || base.last() == sep {
        base + seg
    } else {
        base + seq![sep] + seg
    }
}

/// Adds the component `seg` to the path `base`.
pub fn join(base: &str, seg: &str, platform: Platform) -> (r: String)
    ensures
        r@ == joined(base@, seg@, platform.component_sep()),
{
    let mut out = String::from_str(base);
    let n = base.unicode_len();
    if n > 0 {
        let last = base.get_char(n - 1);
        if last != platform.component_separator() {
            out.append(platform.path_separator());
        }
    }
    out.append(seg);
    out
}

/// The entries of the search-path list `s`, split at each `sep`. An empty
/// list has one empty entry.
pub open spec fn entries(s: Seq<char>, sep: char) -> Seq<Seq<char>>
    decreases s.len(),
{
    if s.len() == 0 {
        seq![Seq::empty()]
    } else {
        let rest = entries(s.drop_first(), sep);
        if s[0] == sep {
            seq![Seq::empty()] + rest
        } else {
            rest.update(0, seq![s[0]] + rest[0])
        }
    }
}

/// Putting `first` and a separator in front of a list adds `first` as its
/// first entry and leaves the others as they were, in order.
pub proof fn lemma_entries_prepend(first: Seq<char>, sep: char, rest: Seq<char>)
    requires
        !first.contains(sep),
    ensures
        entries(first + seq![sep] + rest, sep) == seq![first] + entries(rest, sep),
    decreases first.len(),
{
    let s = first + seq![sep] + rest;
    if first.len() == 0 {
        assert(s.drop_first() =~= rest);
        assert(first =~= Seq::<char>::empty());
    } else {
        let tail = first.drop_first();
        assert(!tail.contains(sep)) by {
            if tail.contains(sep) {
                let k = choose|k: int| 0 <= k < tail.len() && tail[k] == sep;
                assert(first[k + 1] == sep);
            }
        }
        lemma_entries_prepend(tail, sep, rest);
        assert(s.drop_first() =~= tail + seq![sep] + rest);
        assert(first[0] != sep) by {
            if first[0] == sep {
                assert(first.contains(sep));
            }
        }
        assert(seq![s[0]] + tail =~= first);
        assert(entries(s, sep) =~= seq![first] + entries(rest, sep));
    }
}

} // verus!
