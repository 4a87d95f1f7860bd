//! The runner's configuration: its shape, its defaults, where it is looked
//! for, and the checks a loaded configuration must pass.

use vstd::prelude::*;

use crate::text::{chars_of, concat, debug_str, owned, str_debug, strs};

verus! {

/// The whole configuration file.
#[derive(Debug, Clone, PartialEq, Eq)]
pub struct Config {
    pub managers: Managers,
}

/// The `[managers]` table.
#[derive(Debug, Clone, PartialEq, Eq)]
pub struct Managers {
    /// Whether managers are detected at all (default `true`).
    pub autodetect: bool,
    pub nix: Option<NixConfig>,
    pub cargo: Option<CargoConfig>,
    pub treefmt: Option<TreefmtConfig>,
}

/// The `[managers.nix]` table.
#[derive(Debug, Clone, PartialEq, Eq)]
pub struct NixConfig {
    /// Default `true`.
    pub enabled: bool,
    /// The flake attribute set whose derivations are the tests (default `checks`).
    pub attrset: String,
}

/// The `[managers.cargo]` table.
#[derive(Debug, Clone, PartialEq, Eq)]
pub struct CargoConfig {
    /// Default `true`.
    pub enabled: bool,
}

/// The `[managers.treefmt]` table.
#[derive(Debug, Clone, PartialEq, Eq)]
pub struct TreefmtConfig {
    /// `None` (default): run only when a treefmt config exists; `Some(true)`:
    /// always run; `Some(false)`: never.
    pub enabled: Option<bool>,
}

/// The default of the boolean switches that default to on.
pub fn default_true() -> (r: bool)
    ensures
        r,
{
    true
}

/// The default nix attribute set.
pub open spec fn spec_default_attrset() -> Seq<char> {
    "checks"@
}

pub fn default_attrset() -> (r: String)
    ensures
        r@ == spec_default_attrset(),
{
    owned("checks")
}

/// The `[managers]` table when the file has none: autodetect, nothing configured.
pub fn default_managers() -> (r: Managers)
    ensures
        r.autodetect,
        r.nix is None,
        r.cargo is None,
        r.treefmt is None,
{
    Managers { autodetect: true, nix: None, cargo: None, treefmt: None }
}

/// The configuration when there is no configuration file.
pub fn default_config() -> (r: Config)
    ensures
        r.managers.autodetect,
        r.managers.nix is None,
        r.managers.cargo is None,
        r.managers.treefmt is None,
{
    Config { managers: default_managers() }
}

/// Where the configuration file is looked for, in order.
pub open spec fn spec_config_paths() -> Seq<Seq<char>> {
    seq![".github/testquorum.toml"@, ".testquorum.toml"@, "testquorum.toml"@]
}

pub fn config_paths() -> (r: Vec<String>)
    ensures
        strs(r@) == spec_config_paths(),
{
    let mut v: Vec<String> = Vec::new();
    v.push(owned(".github/testquorum.toml"));
    v.push(owned(".testquorum.toml"));
    v.push(owned("testquorum.toml"));
    assert(strs(v@) =~= spec_config_paths());
    v
}

/// The configuration file to load: the first of the locations that exists
/// (`exists[i]` tells whether location `i` does); `None` when none does.
pub fn find_config_file(exists: &[bool]) -> (r: Option<String>)
    requires
        exists@.len() == spec_config_paths().len(),
    ensures
        match r {
            Some(p) => crate::managers::first_existing(spec_config_paths(), exists@) == Some(p@),
            None => crate::managers::first_existing(spec_config_paths(), exists@) is None,
        },
{
    let paths = config_paths();
    crate::managers::first_existing_of(&paths, exists)
}

pub open spec fn is_ascii_alpha(c: char) -> bool {
    ('a' <= c <= 'z') || ('A' <= c <= 'Z')
}

pub open spec fn is_ascii_alnum(c: char) -> bool {
    is_ascii_alpha(c) || ('0' <= c <= '9')
}

/// Why a nix attribute set name is refused.
#[derive(Debug, Clone, PartialEq, Eq)]
pub enum AttrsetError {
    Empty,
    BadStart { value: String },
    BadChar { value: String },
}

impl AttrsetError {
    pub open spec fn spec_message(self) -> Seq<char> {
        match self {
            AttrsetError::Empty => "attrset is empty"@,
            AttrsetError::BadStart { value } => "attrset must start with an ASCII letter or underscore (got "@
                + str_debug(value@) + ")"@,
            AttrsetError::BadChar { value } => "attrset must contain only ASCII alphanumerics, '_' or '-' (got "@
                + str_debug(value@) + ")"@,
        }
    }

    /// The error as the runner reports it.
    pub fn message(&self) -> (r: String)
        ensures
            r@ == self.spec_message(),
    {
        match self {
            AttrsetError::Empty => owned("attrset is empty"),
            AttrsetError::BadStart { value } => {
                let d = debug_str(value.as_str());
                let a = concat("attrset must start with an ASCII letter or underscore (got ", d.as_str());
                concat(a.as_str(), ")")
            },
            AttrsetError::BadChar { value } => {
                let d = debug_str(value.as_str());
                let a = concat("attrset must contain only ASCII alphanumerics, '_' or '-' (got ", d.as_str());
                concat(a.as_str(), ")")
            },
        }
    }
}

/// The kinds of refusal, in the order they are checked.
#[derive(Debug, Clone, Copy, PartialEq, Eq)]
pub enum AttrsetFault {
    Empty,
    BadStart,
    BadChar,
}

/// Why `s` is not a safe nix attribute name: it must start with an ASCII
/// letter or `_`, and go on with ASCII letters, digits, `_` or `-`. Such a
/// name cannot break out of the flake reference it is spliced into.
pub open spec fn attrset_fault(s: Seq<char>) -> Option<AttrsetFault> {
    if s.len() == 0 {
        Some(AttrsetFault::Empty)
    } else if !(is_ascii_alpha(s[0]) || s[0] == '_') {
        Some(AttrsetFault::BadStart)
    } else if exists|i: int| 1 <= i < s.len() && !(is_ascii_alnum(#[trigger] s[i]) || s[i] == '_' || s[i] == '-') {
        Some(AttrsetFault::BadChar)
    } else {
        None
    }
}

/// A name is accepted exactly when it is non-empty, starts with an ASCII
/// letter (either case) or `_`, and goes on with ASCII letters (either case),
/// digits, `_` or `-`.
pub proof fn lemma_attrset_accepts(s: Seq<char>)
    ensures
        attrset_fault(s) is None <==> {
            &&& s.len() > 0
            &&& ('a' <= s[0] <= 'z') || ('A' <= s[0] <= 'Z') || s[0] == '_'
            &&& forall|i: int|
                1 <= i < s.len() ==> ('a' <= #[trigger] s[i] <= 'z') || ('A' <= s[i] <= 'Z') || (
                '0' <= s[i] <= '9') || s[i] == '_' || s[i] == '-'
        },
        s.len() == 0 ==> attrset_fault(s) == Some(AttrsetFault::Empty),
        s.len() > 0 && !(('a' <= s[0] <= 'z') || ('A' <= s[0] <= 'Z') || s[0] == '_') ==> attrset_fault(s)
            == Some(AttrsetFault::BadStart),
{
}

/// Checks a nix attribute set name before it is spliced into a flake reference.
pub fn validate_attrset(s: &str) -> (r: Result<(), AttrsetError>)
    ensures
        r is Ok <==> {
            &&& s@.len() > 0
            &&& ('a' <= s@[0] <= 'z') || ('A' <= s@[0] <= 'Z') || s@[0] == '_'
            &&& forall|i: int|
                1 <= i < s@.len() ==> ('a' <= #[trigger] s@[i] <= 'z') || ('A' <= s@[i] <= 'Z') || (
                '0' <= s@[i] <= '9') || s@[i] == '_' || s@[i] == '-'
        },
        match r {
            Ok(_) => attrset_fault(s@) is None,
            Err(AttrsetError::Empty) => attrset_fault(s@) == Some(AttrsetFault::Empty),
            Err(AttrsetError::BadStart { value }) => attrset_fault(s@) == Some(AttrsetFault::BadStart) && value@ == s@,
            Err(AttrsetError::BadChar { value }) => attrset_fault(s@) == Some(AttrsetFault::BadChar) && value@ == s@,
        },
{
    let c = chars_of(s);
    if c.len() == 0 {
        return Err(AttrsetError::Empty);
    }
    let first = c[0];
    let first_ok = ('a' <= first && first <= 'z') || ('A' <= first && first <= 'Z') || first == '_';
    if !first_ok {
        return Err(AttrsetError::BadStart { value: owned(s) });
    }
    let n = c.len();
    for i in 1..n
        invariant
            n == c@.len(),
            c@ == s@,
            n > 0,
            is_ascii_alpha(c@[0]) || c@[0] == '_',
            forall|j: int| 1 <= j < i ==> (is_ascii_alnum(#[trigger] c@[j]) || c@[j] == '_' || c@[j] == '-'),
    {
        let ch = c[i];
        let ok = ('a' <= ch && ch <= 'z') || ('A' <= ch && ch <= 'Z') || ('0' <= ch && ch <= '9') || ch == '_' || ch == '-';
        if !ok {
            assert(!(is_ascii_alnum(c@[i as int]) || c@[i as int] == '_' || c@[i as int] == '-'));
            return Err(AttrsetError::BadChar { value: owned(s) });
        }
    }
    Ok(())
}

/// The checks a loaded configuration must pass: a configured nix attribute
/// set must be a safe name.
pub fn check_config(config: &Config) -> (r: Result<(), AttrsetError>)
    ensures
        match config.managers.nix {
            Some(nix) => match r {
                Ok(_) => attrset_fault(nix.attrset@) is None,
                Err(e) => attrset_fault(nix.attrset@) is Some,
            },
            None => r is Ok,
        },
{
    match &config.managers.nix {
        Some(nix) => validate_attrset(nix.attrset.as_str()),
        None => Ok(()),
    }
}

} // verus!
