//! Detection of a Maven project.

use vstd::prelude::*;

use crate::managers::{check_major, gate_major, opt_view, or_default, or_default_str, ToolOutput};
use crate::text::{chars_of, concat, owned, trim, trim_str};
use crate::version::{java_major, java_major_chars};

verus! {

/// Why the tool cannot be used here.
#[derive(Debug, Clone, PartialEq, Eq)]
pub enum MavenError {
    JavaNotFound,
    JavaTooOld { minimum: String, found: String },
    MvnNotFound,
    PomNotFound { path: String },
}

impl MavenError {
    pub open spec fn spec_message(self) -> Seq<char> {
        match self {
            MavenError::JavaNotFound => "java not found on PATH"@,
            MavenError::JavaTooOld { minimum, found } => "java version "@ + found@ + " is too old (minimum "@ + minimum@ + ")"@,
            MavenError::MvnNotFound => "mvn not found on PATH"@,
            MavenError::PomNotFound { path } => "pom.xml not found at "@ + path@,
        }
    }

    /// The error as the runner reports it.
    pub fn message(&self) -> (r: String)
        ensures
            r@ == self.spec_message(),
    {
        match self {
            MavenError::JavaNotFound => owned("java not found on PATH"),
            MavenError::JavaTooOld { minimum, found } => {
                let s0 = owned("java version ");
                let s1 = concat(s0.as_str(), found.as_str());
                let s2 = concat(s1.as_str(), " is too old (minimum ");
                let s3 = concat(s2.as_str(), minimum.as_str());
                let s4 = concat(s3.as_str(), ")");
                s4
            },
            MavenError::MvnNotFound => owned("mvn not found on PATH"),
            MavenError::PomNotFound { path } => {
                let s0 = owned("pom.xml not found at ");
                let s1 = concat(s0.as_str(), path.as_str());
                s1
            },
        }
    }
}

/// The Java major version in `java -version` output.
pub open spec fn spec_parse_version(output: Seq<char>) -> Option<u32> {
    java_major(output)
}

/// Reads the Java major version from `java -version` output.
pub fn parse_version(output: &str) -> (r: Option<u32>)
    ensures
        r == spec_parse_version(output@),
{
    let c = chars_of(output);
    java_major_chars(c.as_slice())
}

/// Where `pom.xml` is looked for unless one is configured.
pub open spec fn default_path() -> Seq<char> {
    "pom.xml"@
}

/// The `pom.xml` a detection checks.
pub fn pom_location(configured: Option<&str>) -> (r: String)
    ensures
        r@ == or_default(opt_view(configured), default_path()),
{
    or_default_str(configured, "pom.xml")
}

/// The outcome of detection: `java` and `mvn` on `PATH` (`java_found`,
/// `mvn_found`), `java -version` answering on stderr (`version`) with at
/// least 17, and the `pom.xml` existing (`exists`).
pub open spec fn spec_detect(java_found: bool, mvn_found: bool, version: Option<ToolOutput>, configured: Option<Seq<char>>, exists: bool) -> Result<Seq<char>, Seq<char>> {
    if !java_found {
        Err("java not found on PATH"@)
    } else if !mvn_found {
        Err("mvn not found on PATH"@)
    } else {
        match version {
            None => Err("java not found on PATH"@),
            Some(o) => match gate_major(spec_parse_version(o.stderr@), 17, trim(o.stderr@)) {
                Err((minimum, found)) => Err("java version "@ + found + " is too old (minimum "@ + minimum + ")"@),
                Ok(_) => {
                    let path = or_default(configured, default_path());
                    if exists {
                        Ok(path)
                    } else {
                        Err("pom.xml not found at "@ + path)
                    }
                },
            },
        }
    }
}

/// Checks that Maven can build the project with a recent enough Java.
pub fn detect_maven(java_found: bool, mvn_found: bool, version: Option<ToolOutput>, configured: Option<&str>, exists: bool) -> (r: Result<String, MavenError>)
    ensures
        match r {
            Ok(p) => spec_detect(java_found, mvn_found, version, opt_view(configured), exists) == Ok::<Seq<char>, Seq<char>>(p@),
            Err(e) => spec_detect(java_found, mvn_found, version, opt_view(configured), exists) == Err::<Seq<char>, Seq<char>>(e.spec_message()),
        },
{
    if !java_found {
        return Err(MavenError::JavaNotFound);
    }
    if !mvn_found {
        return Err(MavenError::MvnNotFound);
    }
    let o = match version {
        Some(o) => o,
        None => return Err(MavenError::JavaNotFound),
    };
    let parsed = parse_version(o.stderr.as_str());
    match check_major(parsed, 17, trim_str(o.stderr.as_str())) {
        Err(t) => return Err(MavenError::JavaTooOld { minimum: t.minimum, found: t.found }),
        Ok(_) => {},
    }
    let path = pom_location(configured);
    if !exists {
        return Err(MavenError::PomNotFound { path });
    }
    Ok(path)
}

} // verus!
