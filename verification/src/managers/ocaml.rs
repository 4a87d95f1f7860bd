//! Detection of an OCaml project built with dune through opam.

use vstd::prelude::*;

use crate::managers::{
    check_pair, first_line_found, first_line_found_of, gate_pair, opt_view, or_default,
    or_default_str, ToolOutput,
};
use crate::text::{chars_of, concat, owned, trim, trim_str};
use crate::version::{first_line_version, first_line_version_chars};

verus! {

/// Why the tool cannot be used here.
#[derive(Debug, Clone, PartialEq, Eq)]
pub enum OcamlError {
    OpamNotFound,
    TooOld { minimum: String, found: String },
    DuneProjectNotFound { path: String },
}

impl OcamlError {
    pub open spec fn spec_message(self) -> Seq<char> {
        match self {
            OcamlError::OpamNotFound => "opam not found on PATH"@,
            OcamlError::TooOld { minimum, found } => "opam version "@ + found@ + " is too old (minimum "@ + minimum@ + ")"@,
            OcamlError::DuneProjectNotFound { path } => "dune-project not found at "@ + path@,
        }
    }

    /// The error as the runner reports it.
    pub fn message(&self) -> (r: String)
        ensures
            r@ == self.spec_message(),
    {
        match self {
            OcamlError::OpamNotFound => owned("opam not found on PATH"),
            OcamlError::TooOld { minimum, found } => {
                let s0 = owned("opam version ");
                let s1 = concat(s0.as_str(), found.as_str());
                let s2 = concat(s1.as_str(), " is too old (minimum ");
                let s3 = concat(s2.as_str(), minimum.as_str());
                let s4 = concat(s3.as_str(), ")");
                s4
            },
            OcamlError::DuneProjectNotFound { path } => {
                let s0 = owned("dune-project not found at ");
                let s1 = concat(s0.as_str(), path.as_str());
                s1
            },
        }
    }
}

/// The `major.minor` version in the output of `opam --version`.
pub open spec fn spec_parse_version(output: Seq<char>) -> Option<(u32, u32)> {
    first_line_version(output)
}

/// Reads the `major.minor` version from the output of `opam --version`.
pub fn parse_version(output: &str) -> (r: Option<(u32, u32)>)
    ensures
        r == spec_parse_version(output@),
{
    let c = chars_of(output);
    first_line_version_chars(c.as_slice())
}

/// The text the version is read from.
pub open spec fn version_text(o: ToolOutput) -> Seq<char> {
    o.stdout@ + o.stderr@
}

/// What is reported as found when no version can be read.
pub open spec fn unparsed_found(text: Seq<char>) -> Seq<char> {
    first_line_found(trim(text))
}

/// The oldest supported version.
pub open spec fn minimum() -> (u32, u32) {
    (2, 0)
}

/// Where the `dune-project` is looked for unless one is configured.
pub open spec fn default_path() -> Seq<char> {
    "dune-project"@
}

/// The `dune-project` a detection checks: the configured one, else `dune-project`.
pub fn dune_project_location(configured: Option<&str>) -> (r: String)
    ensures
        r@ == or_default(opt_view(configured), default_path()),
{
    or_default_str(configured, "dune-project")
}

/// The outcome of detection: the tool must be on `PATH` and answer its
/// version query (`version` is its output, `None` when it could not be
/// found or run), the version must be at least the minimum, and the
/// `dune-project` must exist (`exists` tells whether it does).
pub open spec fn spec_detect(version: Option<ToolOutput>, configured: Option<Seq<char>>, exists: bool) -> Result<Seq<char>, Seq<char>> {
    match version {
        None => Err("opam not found on PATH"@),
        Some(o) => match gate_pair(spec_parse_version(version_text(o)), minimum(), unparsed_found(version_text(o))) {
            Err((minimum, found)) => Err("opam version "@ + found + " is too old (minimum "@ + minimum + ")"@),
            Ok(_) => {
                let path = or_default(configured, default_path());
                if exists {
                    Ok(path)
                } else {
                    Err("dune-project not found at "@ + path)
                }
            },
        },
    }
}

/// Checks that opam can run the project's tests.
pub fn detect_ocaml(version: Option<ToolOutput>, configured: Option<&str>, exists: bool) -> (r: Result<String, OcamlError>)
    ensures
        match r {
            Ok(p) => spec_detect(version, opt_view(configured), exists) == Ok::<Seq<char>, Seq<char>>(p@),
            Err(e) => spec_detect(version, opt_view(configured), exists) == Err::<Seq<char>, Seq<char>>(e.spec_message()),
        },
{
    let o = match version {
        Some(o) => o,
        None => return Err(OcamlError::OpamNotFound),
    };
    let text = concat(o.stdout.as_str(), o.stderr.as_str());
    let parsed = parse_version(text.as_str());
    let found = { let t = trim_str(text.as_str()); first_line_found_of(t.as_str()) };
    match check_pair(parsed, (2, 0), found) {
        Err(t) => return Err(OcamlError::TooOld { minimum: t.minimum, found: t.found }),
        Ok(_) => {},
    }
    let path = dune_project_location(configured);
    if !exists {
        return Err(OcamlError::DuneProjectNotFound { path });
    }
    Ok(path)
}

} // verus!
