//! Detection of a Ruby project tested with RSpec through Bundler.

use vstd::prelude::*;

use crate::managers::{check_pair, gate_pair, opt_view, or_default, or_default_str, ToolOutput};
use crate::text::{chars_of, concat, owned, trim, trim_str};
use crate::version::{digits_and_dots, digits_and_dots_chars, major_minor, major_minor_chars, nth_token, nth_token_chars};

verus! {

/// Why the tool cannot be used here.
#[derive(Debug, Clone, PartialEq, Eq)]
pub enum RspecError {
    RubyNotFound,
    RubyTooOld { minimum: String, found: String },
    BundleNotFound,
    GemfileNotFound { path: String },
}

impl RspecError {
    pub open spec fn spec_message(self) -> Seq<char> {
        match self {
            RspecError::RubyNotFound => "ruby not found on PATH"@,
            RspecError::RubyTooOld { minimum, found } => "ruby version "@ + found@ + " is too old (minimum "@ + minimum@ + ")"@,
            RspecError::BundleNotFound => "bundle not found on PATH"@,
            RspecError::GemfileNotFound { path } => "Gemfile not found at "@ + path@,
        }
    }

    /// The error as the runner reports it.
    pub fn message(&self) -> (r: String)
        ensures
            r@ == self.spec_message(),
    {
        match self {
            RspecError::RubyNotFound => owned("ruby not found on PATH"),
            RspecError::RubyTooOld { minimum, found } => {
                let s0 = owned("ruby version ");
                let s1 = concat(s0.as_str(), found.as_str());
                let s2 = concat(s1.as_str(), " is too old (minimum ");
                let s3 = concat(s2.as_str(), minimum.as_str());
                let s4 = concat(s3.as_str(), ")");
                s4
            },
            RspecError::BundleNotFound => owned("bundle not found on PATH"),
            RspecError::GemfileNotFound { path } => {
                let s0 = owned("Gemfile not found at ");
                let s1 = concat(s0.as_str(), path.as_str());
                s1
            },
        }
    }
}

/// The `major.minor` version in `ruby --version` output: the second token,
/// cut before any suffix such as `p216`.
pub open spec fn spec_parse_version(output: Seq<char>) -> Option<(u32, u32)> {
    match nth_token(output, 1) {
        Some(t) => major_minor(digits_and_dots(t)),
        None => None,
    }
}

/// Reads the `major.minor` version from `ruby --version` output.
pub fn parse_version(output: &str) -> (r: Option<(u32, u32)>)
    ensures
        r == spec_parse_version(output@),
{
    let c = chars_of(output);
    match nth_token_chars(c.as_slice(), 1) {
        Some(t) => {
            let d = digits_and_dots_chars(t.as_slice());
            major_minor_chars(d.as_slice())
        },
        None => None,
    }
}

/// Where the `Gemfile` is looked for unless one is configured.
pub open spec fn default_path() -> Seq<char> {
    "Gemfile"@
}

/// The `Gemfile` a detection checks.
pub fn gemfile_location(configured: Option<&str>) -> (r: String)
    ensures
        r@ == or_default(opt_view(configured), default_path()),
{
    or_default_str(configured, "Gemfile")
}

/// The outcome of detection: `ruby` answering its version query
/// (`version`), at least 3.0, `bundle` on `PATH` (`bundle_found`), and the
/// `Gemfile` existing (`exists`).
pub open spec fn spec_detect(version: Option<ToolOutput>, bundle_found: bool, configured: Option<Seq<char>>, exists: bool) -> Result<Seq<char>, Seq<char>> {
    match version {
        None => Err("ruby not found on PATH"@),
        Some(o) => match gate_pair(spec_parse_version(o.stdout@), (3, 0), trim(o.stdout@)) {
            Err((minimum, found)) => Err("ruby version "@ + found + " is too old (minimum "@ + minimum + ")"@),
            Ok(_) => if !bundle_found {
                Err("bundle not found on PATH"@)
            } else {
                let path = or_default(configured, default_path());
                if exists {
                    Ok(path)
                } else {
                    Err("Gemfile not found at "@ + path)
                }
            },
        },
    }
}

/// Checks that RSpec can run through Bundler with a recent enough Ruby.
pub fn detect_rspec(version: Option<ToolOutput>, bundle_found: bool, configured: Option<&str>, exists: bool) -> (r: Result<String, RspecError>)
    ensures
        match r {
            Ok(p) => spec_detect(version, bundle_found, opt_view(configured), exists) == Ok::<Seq<char>, Seq<char>>(p@),
            Err(e) => spec_detect(version, bundle_found, opt_view(configured), exists) == Err::<Seq<char>, Seq<char>>(e.spec_message()),
        },
{
    let o = match version {
        Some(o) => o,
        None => return Err(RspecError::RubyNotFound),
    };
    let parsed = parse_version(o.stdout.as_str());
    match check_pair(parsed, (3, 0), trim_str(o.stdout.as_str())) {
        Err(t) => return Err(RspecError::RubyTooOld { minimum: t.minimum, found: t.found }),
        Ok(_) => {},
    }
    if !bundle_found {
        return Err(RspecError::BundleNotFound);
    }
    let path = gemfile_location(configured);
    if !exists {
        return Err(RspecError::GemfileNotFound { path });
    }
    Ok(path)
}

} // verus!
