//! The generic environment: a run context read from `TQ_*` variables.

use vstd::prelude::*;

use crate::api::{Commit, Run, RunKind};
use crate::environments::{env_non_empty, EnvKind, EnvVars, RunContext};
use crate::text::{chars_eq, chars_of, concat, debug_str, owned, parse_i64, parse_i64_chars, str_debug};

verus! {

/// The generic environment, for any CI or a developer's machine.
pub struct UnknownEnvironment;

impl UnknownEnvironment {
    pub fn new() -> (r: UnknownEnvironment) {
        UnknownEnvironment
    }

    pub fn name(&self) -> (r: String)
        ensures
            r@ == EnvKind::Unknown.spec_name(),
    {
        EnvKind::Unknown.name()
    }
}

/// Why the `TQ_*` variables give no run context.
#[derive(Debug, Clone, PartialEq, Eq)]
pub enum ContextError {
    /// A variable that must accompany `TQ_REPO_ID` is unset or empty.
    Missing { key: String },
    /// A height variable does not hold an `i64`.
    NotI64 { key: String, reason: IntError },
    /// `TQ_RUN_KIND` is none of `diff`, `land`, `merge`.
    UnknownKind { kind: String },
}

/// Why a non-empty text is not an `i64` (the kinds of `ParseIntError` that can occur).
#[derive(Debug, Clone, Copy, PartialEq, Eq)]
pub enum IntError {
    InvalidDigit,
    PosOverflow,
    NegOverflow,
}

/// The kind of error `i64::from_str` reports for a non-empty text it rejects.
pub open spec fn i64_error(s: Seq<char>) -> IntError {
    let d = if s.len() > 0 && (s[0] == '+' || s[0] == '-') {
        s.drop_first()
    } else {
        s
    };
    if d.len() == 0 || !crate::text::all_digits(d) {
        IntError::InvalidDigit
    } else if s[0] == '-' {
        IntError::NegOverflow
    } else {
        IntError::PosOverflow
    }
}

impl IntError {
    pub open spec fn spec_text(self) -> Seq<char> {
        match self {
            IntError::InvalidDigit => "invalid digit found in string"@,
            IntError::PosOverflow => "number too large to fit in target type"@,
            IntError::NegOverflow => "number too small to fit in target type"@,
        }
    }

    /// `ParseIntError`'s message.
    pub fn text(&self) -> (r: String)
        ensures
            r@ == self.spec_text(),
    {
        match self {
            IntError::InvalidDigit => owned("invalid digit found in string"),
            IntError::PosOverflow => owned("number too large to fit in target type"),
            IntError::NegOverflow => owned("number too small to fit in target type"),
        }
    }
}

fn i64_error_of(s: &[char]) -> (r: IntError)
    requires
        s@.len() > 0,
    ensures
        r == i64_error(s@),
{
    let start: usize = if s[0] == '+' || s[0] == '-' {
        1
    } else {
        0
    };
    let ghost d = if s@[0] == '+' || s@[0] == '-' {
        s@.drop_first()
    } else {
        s@
    };
    assert(d =~= s@.skip(start as int));
    if start == s.len() {
        return IntError::InvalidDigit;
    }
    let mut i = start;
    while i < s.len()
        invariant
            start <= i <= s@.len(),
            s@.len() > 0,
            d =~= s@.skip(start as int),
            d == (if s@[0] == '+' || s@[0] == '-' {
                s@.drop_first()
            } else {
                s@
            }),
            forall|j: int| start <= j < i ==> crate::text::is_digit(#[trigger] s@[j]),
        decreases s@.len() - i,
    {
        if !(s[i] >= '0' && s[i] <= '9') {
            assert(!crate::text::is_digit(d[i - start]));
            assert(!crate::text::all_digits(d));
            return IntError::InvalidDigit;
        }
        i = i + 1;
    }
    assert(crate::text::all_digits(d)) by {
        assert forall|j: int| 0 <= j < d.len() implies crate::text::is_digit(#[trigger] d[j]) by {
            assert(d[j] == s@[j + start]);
        }
    }
    if s[0] == '-' {
        IntError::NegOverflow
    } else {
        IntError::PosOverflow
    }
}

impl ContextError {
    pub open spec fn spec_message(self) -> Seq<char> {
        match self {
            ContextError::Missing { key } => key@ + " must be set when TQ_REPO_ID is set"@,
            ContextError::NotI64 { key, reason } => key@ + " is not a valid i64: "@
                + reason.spec_text(),
            ContextError::UnknownKind { kind } => "TQ_RUN_KIND must be one of diff|land|merge, got "@
                + str_debug(kind@),
        }
    }

    /// The error as the runner reports it.
    pub fn message(&self) -> (r: String)
        ensures
            r@ == self.spec_message(),
    {
        match self {
            ContextError::Missing { key } => concat(key.as_str(), " must be set when TQ_REPO_ID is set"),
            ContextError::NotI64 { key, reason } => {
                let a = concat(key.as_str(), " is not a valid i64: ");
                let t = reason.text();
                concat(a.as_str(), t.as_str())
            },
            ContextError::UnknownKind { kind } => {
                let d = debug_str(kind.as_str());
                concat("TQ_RUN_KIND must be one of diff|land|merge, got ", d.as_str())
            },
        }
    }
}

/// The value of `key`; an error naming it when it is unset or empty.
pub fn require(env: &EnvVars, key: &str) -> (r: Result<String, ContextError>)
    ensures
        match r {
            Ok(v) => env_non_empty(env.vars@, key@) == Some(v@),
            Err(e) => env_non_empty(env.vars@, key@) is None && e is Missing && e->Missing_key@
                == key@,
        },
{
    match env.non_empty(key) {
        Some(v) => Ok(v),
        None => Err(ContextError::Missing { key: owned(key) }),
    }
}

/// The value of `key` as an `i64`; an error when it is missing or not an integer.
pub fn require_i64(env: &EnvVars, key: &str) -> (r: Result<i64, ContextError>)
    ensures
        match r {
            Ok(n) => env_non_empty(env.vars@, key@) is Some && parse_i64(
                env_non_empty(env.vars@, key@)->0,
            ) == Some(n),
            Err(ContextError::Missing { key: k }) => env_non_empty(env.vars@, key@) is None
                && k@ == key@,
            Err(ContextError::NotI64 { key: k, reason }) => env_non_empty(env.vars@, key@) is Some
                && parse_i64(env_non_empty(env.vars@, key@)->0) is None && k@ == key@ && reason
                == i64_error(env_non_empty(env.vars@, key@)->0),
            Err(ContextError::UnknownKind { .. }) => false,
        },
{
    let v = require(env, key)?;
    let c = chars_of(v.as_str());
    match parse_i64_chars(c.as_slice()) {
        Some(n) => Ok(n),
        None => Err(ContextError::NotI64 { key: owned(key), reason: i64_error_of(c.as_slice()) }),
    }
}

/// The message of the first check of the `TQ_*` variables that fails, in the
/// order the runner makes them: the run kind is present, then each commit's
/// sha and height (head first), then the kind is one of `diff`, `land`, `merge`.
pub open spec fn context_failure(vars: Seq<(String, String)>) -> Option<Seq<char>> {
    let missing = |k: Seq<char>| k + " must be set when TQ_REPO_ID is set"@;
    let height_failure = |k: Seq<char>|
        match env_non_empty(vars, k) {
            None => Some(missing(k)),
            Some(v) => if parse_i64(v) is None {
                Some(k + " is not a valid i64: "@ + i64_error(v).spec_text())
            } else {
                None::<Seq<char>>
            },
        };
    if env_non_empty(vars, "TQ_RUN_KIND"@) is None {
        Some(missing("TQ_RUN_KIND"@))
    } else if env_non_empty(vars, "TQ_HEAD_SHA"@) is None {
        Some(missing("TQ_HEAD_SHA"@))
    } else if height_failure("TQ_HEAD_HEIGHT"@) is Some {
        height_failure("TQ_HEAD_HEIGHT"@)
    } else if env_non_empty(vars, "TQ_MERGE_BASE_SHA"@) is None {
        Some(missing("TQ_MERGE_BASE_SHA"@))
    } else if height_failure("TQ_MERGE_BASE_HEIGHT"@) is Some {
        height_failure("TQ_MERGE_BASE_HEIGHT"@)
    } else {
        let kind = env_non_empty(vars, "TQ_RUN_KIND"@)->0;
        if kind == "diff"@ || kind == "land"@ || kind == "merge"@ {
            None
        } else {
            Some("TQ_RUN_KIND must be one of diff|land|merge, got "@ + str_debug(kind))
        }
    }
}

/// The value of a variable the checks have found present.
pub open spec fn present(vars: Seq<(String, String)>, key: Seq<char>) -> Seq<char> {
    env_non_empty(vars, key)->0
}

/// Whether `ctx` is the context the `TQ_*` variables describe for `repo_id`.
pub open spec fn describes_context(vars: Seq<(String, String)>, repo_id: Seq<char>, ctx: RunContext) -> bool {
    let base = ctx.run.kind;
    let kind = present(vars, "TQ_RUN_KIND"@);
    &&& ctx.repo_id@ == repo_id
    &&& ctx.run.head.sha@ == present(vars, "TQ_HEAD_SHA"@)
    &&& Some(ctx.run.head.height) == parse_i64(present(vars, "TQ_HEAD_HEIGHT"@))
    &&& match base {
        RunKind::Diff(_) => kind == "diff"@,
        RunKind::Land(_) => kind == "land"@,
        RunKind::Merge(_) => kind == "merge"@,
        RunKind::PostLand { .. } => false,
    }
    &&& match base {
        RunKind::Diff(c) | RunKind::Land(c) | RunKind::Merge(c) => c.sha@ == present(
            vars,
            "TQ_MERGE_BASE_SHA"@,
        ) && Some(c.height) == parse_i64(present(vars, "TQ_MERGE_BASE_HEIGHT"@)),
        RunKind::PostLand { .. } => false,
    }
}

fn eq_str(a: &str, b: &str) -> (r: bool)
    ensures
        r == (a@ == b@),
{
    let x = chars_of(a);
    let y = chars_of(b);
    chars_eq(x.as_slice(), y.as_slice())
}

/// The run context the `TQ_*` variables describe, for a set `TQ_REPO_ID`.
pub fn build_context(env: &EnvVars, repo_id: String) -> (r: Result<RunContext, ContextError>)
    ensures
        match r {
            Ok(ctx) => context_failure(env.vars@) is None && describes_context(
                env.vars@,
                repo_id@,
                ctx,
            ),
            Err(e) => context_failure(env.vars@) == Some(e.spec_message()),
        },
{
    let kind_str = require(env, "TQ_RUN_KIND")?;
    let head_sha = require(env, "TQ_HEAD_SHA")?;
    let head_height = require_i64(env, "TQ_HEAD_HEIGHT")?;
    let base_sha = require(env, "TQ_MERGE_BASE_SHA")?;
    let base_height = require_i64(env, "TQ_MERGE_BASE_HEIGHT")?;
    let head = Commit { sha: head_sha, height: head_height };
    let merge_base = Commit { sha: base_sha, height: base_height };
    let kind = if eq_str(kind_str.as_str(), "diff") {
        RunKind::Diff(merge_base)
    } else if eq_str(kind_str.as_str(), "land") {
        RunKind::Land(merge_base)
    } else if eq_str(kind_str.as_str(), "merge") {
        RunKind::Merge(merge_base)
    } else {
        return Err(ContextError::UnknownKind { kind: kind_str });
    };
    Ok(RunContext { repo_id, run: Run { head, kind } })
}

/// What the generic environment reads: nothing when `TQ_REPO_ID` is unset or
/// empty, else the context the other variables describe, or why they do not.
pub enum EnvRead {
    Missing,
    Present(Result<RunContext, ContextError>),
}

/// Reads the run context from the `TQ_*` variables.
pub fn read_env(env: &EnvVars) -> (r: EnvRead)
    ensures
        match r {
            EnvRead::Missing => env_non_empty(env.vars@, "TQ_REPO_ID"@) is None,
            EnvRead::Present(Ok(ctx)) => env_non_empty(env.vars@, "TQ_REPO_ID"@) is Some
                && context_failure(env.vars@) is None && describes_context(
                env.vars@,
                present(env.vars@, "TQ_REPO_ID"@),
                ctx,
            ),
            EnvRead::Present(Err(e)) => env_non_empty(env.vars@, "TQ_REPO_ID"@) is Some
                && context_failure(env.vars@) == Some(e.spec_message()),
        },
{
    match env.non_empty("TQ_REPO_ID") {
        Some(repo_id) => EnvRead::Present(build_context(env, repo_id)),
        None => EnvRead::Missing,
    }
}

} // verus!
