//! Detection of a PHP project tested through Composer.

use vstd::prelude::*;

use crate::managers::{
    check_pair, first_line_found, first_line_found_of, gate_pair, has_test_script,
    declares_test_script, opt_view, or_default, or_default_str, ToolOutput,
};
use crate::text::{chars_of, concat, owned};
use crate::version::{first_line, first_line_chars, major_minor, major_minor_chars, nth_token, nth_token_chars};

verus! {

/// Why the tool cannot be used here.
#[derive(Debug, Clone, PartialEq, Eq)]
pub enum ComposerError {
    PhpNotFound,
    PhpTooOld { minimum: String, found: String },
    ComposerNotFound,
    ComposerJsonNotFound { path: String },
    NoTestScript,
}

impl ComposerError {
    pub open spec fn spec_message(self) -> Seq<char> {
        match self {
            ComposerError::PhpNotFound => "php not found on PATH"@,
            ComposerError::PhpTooOld { minimum, found } => "php version "@ + found@ + " is too old (minimum "@ + minimum@ + ")"@,
            ComposerError::ComposerNotFound => "composer not found on PATH"@,
            ComposerError::ComposerJsonNotFound { path } => "composer.json not found at "@ + path@,
            ComposerError::NoTestScript => "composer.json has no test script"@,
        }
    }

    /// The error as the runner reports it.
    pub fn message(&self) -> (r: String)
        ensures
            r@ == self.spec_message(),
    {
        match self {
            ComposerError::PhpNotFound => owned("php not found on PATH"),
            ComposerError::PhpTooOld { minimum, found } => {
                let s0 = owned("php version ");
                let s1 = concat(s0.as_str(), found.as_str());
                let s2 = concat(s1.as_str(), " is too old (minimum ");
                let s3 = concat(s2.as_str(), minimum.as_str());
                let s4 = concat(s3.as_str(), ")");
                s4
            },
            ComposerError::ComposerNotFound => owned("composer not found on PATH"),
            ComposerError::ComposerJsonNotFound { path } => {
                let s0 = owned("composer.json not found at ");
                let s1 = concat(s0.as_str(), path.as_str());
                s1
            },
            ComposerError::NoTestScript => owned("composer.json has no test script"),
        }
    }
}

/// The `major.minor` PHP version: the second token of the first line
/// (`"PHP 8.3.0 (cli) ..."` is 8.3).
pub open spec fn spec_parse_php_version(output: Seq<char>) -> Option<(u32, u32)> {
    match first_line(output) {
        Some(l) => match nth_token(l, 1) {
            Some(t) => major_minor(t),
            None => None,
        },
        None => None,
    }
}

/// Reads the `major.minor` version from `php --version` output.
pub fn parse_php_version(output: &str) -> (r: Option<(u32, u32)>)
    ensures
        r == spec_parse_php_version(output@),
{
    let c = chars_of(output);
    match first_line_chars(c.as_slice()) {
        Some(l) => match nth_token_chars(l.as_slice(), 1) {
            Some(t) => major_minor_chars(t.as_slice()),
            None => None,
        },
        None => None,
    }
}

/// Where `composer.json` is looked for unless one is configured.
pub open spec fn default_path() -> Seq<char> {
    "composer.json"@
}

/// The `composer.json` a detection checks.
pub fn composer_json_location(configured: Option<&str>) -> (r: String)
    ensures
        r@ == or_default(opt_view(configured), default_path()),
{
    or_default_str(configured, "composer.json")
}

/// The outcome of detection: `php` answering its version query (`version`),
/// at least 8.0, `composer` on `PATH` (`composer_found`), the
/// `composer.json` existing (`exists`) and readable (`content`), and it
/// declaring a `test` script.
pub open spec fn spec_detect(version: Option<ToolOutput>, composer_found: bool, configured: Option<Seq<char>>, exists: bool, content: Option<Seq<char>>) -> Result<Seq<char>, Seq<char>> {
    match version {
        None => Err("php not found on PATH"@),
        Some(o) => match gate_pair(spec_parse_php_version(o.stdout@), (8, 0), first_line_found(o.stdout@)) {
            Err((minimum, found)) => Err("php version "@ + found + " is too old (minimum "@ + minimum + ")"@),
            Ok(_) => if !composer_found {
                Err("composer not found on PATH"@)
            } else {
                let path = or_default(configured, default_path());
                if !exists {
                    Err("composer.json not found at "@ + path)
                } else {
                    match content {
                        None => Err("composer.json not found at "@ + path),
                        Some(text) => if declares_test_script(text) {
                            Ok(path)
                        } else {
                            Err("composer.json has no test script"@)
                        },
                    }
                }
            },
        },
    }
}

/// Checks that Composer can run the project's tests with a recent enough PHP.
pub fn detect_composer(version: Option<ToolOutput>, composer_found: bool, configured: Option<&str>, exists: bool, content: Option<String>) -> (r: Result<String, ComposerError>)
    ensures
        ({
            let c = match content {
                Some(t) => Some(t@),
                None => None,
            };
            match r {
                Ok(p) => spec_detect(version, composer_found, opt_view(configured), exists, c) == Ok::<Seq<char>, Seq<char>>(p@),
                Err(e) => spec_detect(version, composer_found, opt_view(configured), exists, c) == Err::<Seq<char>, Seq<char>>(e.spec_message()),
            }
        }),
{
    let o = match version {
        Some(o) => o,
        None => return Err(ComposerError::PhpNotFound),
    };
    let parsed = parse_php_version(o.stdout.as_str());
    match check_pair(parsed, (8, 0), first_line_found_of(o.stdout.as_str())) {
        Err(t) => return Err(ComposerError::PhpTooOld { minimum: t.minimum, found: t.found }),
        Ok(_) => {},
    }
    if !composer_found {
        return Err(ComposerError::ComposerNotFound);
    }
    let path = composer_json_location(configured);
    if !exists {
        return Err(ComposerError::ComposerJsonNotFound { path });
    }
    let text = match content {
        Some(t) => t,
        None => return Err(ComposerError::ComposerJsonNotFound { path }),
    };
    match has_test_script(text.as_str()) {
        true => Ok(path),
        false => Err(ComposerError::NoTestScript),
    }
}

} // verus!
