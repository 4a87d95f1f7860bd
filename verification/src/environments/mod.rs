//! Where the runner is running, and what it learns from there: the process
//! environment as a list of variables, the run context it yields, and the
//! choice between the GitHub Actions and the generic environment.

pub mod artifact;
pub mod github;
pub mod unknown;

use vstd::prelude::*;

use crate::api::Run;
use crate::text::{chars_eq, chars_of, owned};

verus! {

/// A snapshot of the process environment: its variables in order. Lookups go
/// by the first variable of a name.
#[derive(Debug, Clone)]
pub struct EnvVars {
    pub vars: Vec<(String, String)>,
}

/// The value of the first variable named `key`.
pub open spec fn env_lookup(vars: Seq<(String, String)>, key: Seq<char>) -> Option<Seq<char>>
    decreases vars.len(),
{
    if vars.len() == 0 {
        None
    } else if vars[0].0@ == key {
        Some(vars[0].1@)
    } else {
        env_lookup(vars.drop_first(), key)
    }
}

/// The value of `key` when it is set and not empty.
pub open spec fn env_non_empty(vars: Seq<(String, String)>, key: Seq<char>) -> Option<Seq<char>> {
    match env_lookup(vars, key) {
        Some(v) => if v.len() > 0 {
            Some(v)
        } else {
            None
        },
        None => None,
    }
}

impl EnvVars {
    /// The value of the first variable named `key` (`std::env::var`).
    pub fn get(&self, key: &str) -> (r: Option<String>)
        ensures
            match r {
                Some(v) => env_lookup(self.vars@, key@) == Some(v@),
                None => env_lookup(self.vars@, key@) is None,
            },
    {
        let k = chars_of(key);
        let n = self.vars.len();
        let mut i: usize = 0;
        assert(self.vars@.skip(0) =~= self.vars@);
        while i < n
            invariant
                n == self.vars@.len(),
                i <= n,
                k@ == key@,
                env_lookup(self.vars@, key@) == env_lookup(self.vars@.skip(i as int), key@),
            decreases n - i,
        {
            assert(self.vars@.skip(i as int).drop_first() =~= self.vars@.skip(i + 1));
            let name = chars_of(self.vars[i].0.as_str());
            if chars_eq(name.as_slice(), k.as_slice()) {
                return Some(owned(self.vars[i].1.as_str()));
            }
            i = i + 1;
        }
        None
    }

    /// The value of `key` when it is set and not empty.
    pub fn non_empty(&self, key: &str) -> (r: Option<String>)
        ensures
            match r {
                Some(v) => env_non_empty(self.vars@, key@) == Some(v@),
                None => env_non_empty(self.vars@, key@) is None,
            },
    {
        match self.get(key) {
            Some(v) => {
                if v.as_str().is_empty() {
                    None
                } else {
                    Some(v)
                }
            },
            None => None,
        }
    }
}

/// Where a run is uploaded to and what it is.
#[derive(Debug, Clone, PartialEq, Eq)]
pub struct RunContext {
    pub repo_id: String,
    pub run: Run,
}

/// The environments the runner knows.
#[derive(Debug, Clone, Copy, PartialEq, Eq)]
pub enum EnvKind {
    GitHub,
    Unknown,
}

impl EnvKind {
    pub open spec fn spec_name(self) -> Seq<char> {
        match self {
            EnvKind::GitHub => "github"@,
            EnvKind::Unknown => "unknown"@,
        }
    }

    /// The environment's name as the banners print it.
    pub fn name(&self) -> (r: String)
        ensures
            r@ == self.spec_name(),
    {
        match self {
            EnvKind::GitHub => owned("github"),
            EnvKind::Unknown => owned("unknown"),
        }
    }
}

/// GitHub Actions when `GITHUB_ACTIONS` is exactly `true`, else the generic environment.
pub open spec fn spec_detect_environment(github_actions: Option<Seq<char>>) -> EnvKind {
    if github_actions == Some("true"@) {
        EnvKind::GitHub
    } else {
        EnvKind::Unknown
    }
}

/// Picks the environment from the value of `GITHUB_ACTIONS`.
pub fn detect_environment(env: &EnvVars) -> (r: EnvKind)
    ensures
        r == spec_detect_environment(env_lookup(env.vars@, "GITHUB_ACTIONS"@)),
        r == EnvKind::GitHub <==> env_lookup(env.vars@, "GITHUB_ACTIONS"@) == Some("true"@),
        r == EnvKind::Unknown <==> env_lookup(env.vars@, "GITHUB_ACTIONS"@) != Some("true"@),
{
    match env.get("GITHUB_ACTIONS") {
        Some(v) => {
            let c = chars_of(v.as_str());
            let t = chars_of("true");
            if chars_eq(c.as_slice(), t.as_slice()) {
                EnvKind::GitHub
            } else {
                EnvKind::Unknown
            }
        },
        None => EnvKind::Unknown,
    }
}

} // verus!
