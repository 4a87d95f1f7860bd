//! Detection of an Elixir project run through `mix`.

use vstd::prelude::*;

use crate::managers::{
    check_pair, gate_pair, last_line_found, last_line_found_of, opt_view, or_default,
    or_default_str, ToolOutput,
};
use crate::text::{chars_of, concat, owned};
use crate::version::{version_after, version_after_chars};

verus! {

/// Why the tool cannot be used here.
#[derive(Debug, Clone, PartialEq, Eq)]
pub enum ElixirError {
    NotFound,
    TooOld { minimum: String, found: String },
    MixExsNotFound { path: String },
}

impl ElixirError {
    pub open spec fn spec_message(self) -> Seq<char> {
        match self {
            ElixirError::NotFound => "mix not found on PATH"@,
            ElixirError::TooOld { minimum, found } => "Elixir version "@ + found@ + " is too old (minimum "@ + minimum@ + ")"@,
            ElixirError::MixExsNotFound { path } => "mix.exs not found at "@ + path@,
        }
    }

    /// The error as the runner reports it.
    pub fn message(&self) -> (r: String)
        ensures
            r@ == self.spec_message(),
    {
        match self {
            ElixirError::NotFound => owned("mix not found on PATH"),
            ElixirError::TooOld { minimum, found } => {
                let s0 = owned("Elixir version ");
                let s1 = concat(s0.as_str(), found.as_str());
                let s2 = concat(s1.as_str(), " is too old (minimum ");
                let s3 = concat(s2.as_str(), minimum.as_str());
                let s4 = concat(s3.as_str(), ")");
                s4
            },
            ElixirError::MixExsNotFound { path } => {
                let s0 = owned("mix.exs not found at ");
                let s1 = concat(s0.as_str(), path.as_str());
                s1
            },
        }
    }
}

/// The `major.minor` version in the output of `elixir --version`.
pub open spec fn spec_parse_version(output: Seq<char>) -> Option<(u32, u32)> {
    version_after(output, "Elixir "@)
}

/// Reads the `major.minor` version from the output of `elixir --version`.
pub fn parse_version(output: &str) -> (r: Option<(u32, u32)>)
    ensures
        r == spec_parse_version(output@),
{
    let c = chars_of(output);
    let m = chars_of("Elixir ");
    version_after_chars(c.as_slice(), m.as_slice())
}

/// The text the version is read from.
pub open spec fn version_text(o: ToolOutput) -> Seq<char> {
    o.stdout@ + o.stderr@
}

/// What is reported as found when no version can be read.
pub open spec fn unparsed_found(text: Seq<char>) -> Seq<char> {
    last_line_found(text)
}

/// The oldest supported version.
pub open spec fn minimum() -> (u32, u32) {
    (1, 14)
}

/// Where the `mix.exs` is looked for unless one is configured.
pub open spec fn default_path() -> Seq<char> {
    "mix.exs"@
}

/// The `mix.exs` a detection checks: the configured one, else `mix.exs`.
pub fn mix_exs_location(configured: Option<&str>) -> (r: String)
    ensures
        r@ == or_default(opt_view(configured), default_path()),
{
    or_default_str(configured, "mix.exs")
}

/// The outcome of detection: the tool must be on `PATH` and answer its
/// version query (`version` is its output, `None` when it could not be
/// found or run), the version must be at least the minimum, and the
/// `mix.exs` must exist (`exists` tells whether it does).
pub open spec fn spec_detect(version: Option<ToolOutput>, configured: Option<Seq<char>>, exists: bool) -> Result<Seq<char>, Seq<char>> {
    match version {
        None => Err("mix not found on PATH"@),
        Some(o) => match gate_pair(spec_parse_version(version_text(o)), minimum(), unparsed_found(version_text(o))) {
            Err((minimum, found)) => Err("Elixir version "@ + found + " is too old (minimum "@ + minimum + ")"@),
            Ok(_) => {
                let path = or_default(configured, default_path());
                if exists {
                    Ok(path)
                } else {
                    Err("mix.exs not found at "@ + path)
                }
            },
        },
    }
}

/// Checks that mix can run the project's tests.
pub fn detect_elixir(version: Option<ToolOutput>, configured: Option<&str>, exists: bool) -> (r: Result<String, ElixirError>)
    ensures
        match r {
            Ok(p) => spec_detect(version, opt_view(configured), exists) == Ok::<Seq<char>, Seq<char>>(p@),
            Err(e) => spec_detect(version, opt_view(configured), exists) == Err::<Seq<char>, Seq<char>>(e.spec_message()),
        },
{
    let o = match version {
        Some(o) => o,
        None => return Err(ElixirError::NotFound),
    };
    let text = concat(o.stdout.as_str(), o.stderr.as_str());
    let parsed = parse_version(text.as_str());
    let found = last_line_found_of(text.as_str());
    match check_pair(parsed, (1, 14), found) {
        Err(t) => return Err(ElixirError::TooOld { minimum: t.minimum, found: t.found }),
        Ok(_) => {},
    }
    let path = mix_exs_location(configured);
    if !exists {
        return Err(ElixirError::MixExsNotFound { path });
    }
    Ok(path)
}

} // verus!
