//! Detection of a Kotlin project built with Gradle.

use vstd::prelude::*;

use crate::managers::{
    check_major, first_existing, first_existing_of, first_line_found, first_line_found_of,
    gate_major, opt_view, ToolOutput,
};
use crate::text::{chars_of, concat, owned, strs, trim, trim_str};
use crate::version::{java_major, java_major_chars};

verus! {

/// Why the tool cannot be used here.
#[derive(Debug, Clone, PartialEq, Eq)]
pub enum KotlinError {
    JavaNotFound,
    JavaTooOld { minimum: String, found: String },
    GradlewNotFound,
    BuildFileMissing { path: String },
}

impl KotlinError {
    pub open spec fn spec_message(self) -> Seq<char> {
        match self {
            KotlinError::JavaNotFound => "java not found on PATH"@,
            KotlinError::JavaTooOld { minimum, found } => "java version "@ + found@ + " is too old (minimum "@ + minimum@ + ")"@,
            KotlinError::GradlewNotFound => "./gradlew not found — is this a Gradle project?"@,
            KotlinError::BuildFileMissing { path } => "build.gradle.kts (or build.gradle) not found at "@ + path@,
        }
    }

    /// The error as the runner reports it.
    pub fn message(&self) -> (r: String)
        ensures
            r@ == self.spec_message(),
    {
        match self {
            KotlinError::JavaNotFound => owned("java not found on PATH"),
            KotlinError::JavaTooOld { minimum, found } => {
                let s0 = owned("java version ");
                let s1 = concat(s0.as_str(), found.as_str());
                let s2 = concat(s1.as_str(), " is too old (minimum ");
                let s3 = concat(s2.as_str(), minimum.as_str());
                let s4 = concat(s3.as_str(), ")");
                s4
            },
            KotlinError::GradlewNotFound => owned("./gradlew not found — is this a Gradle project?"),
            KotlinError::BuildFileMissing { path } => {
                let s0 = owned("build.gradle.kts (or build.gradle) not found at ");
                let s1 = concat(s0.as_str(), path.as_str());
                s1
            },
        }
    }
}

/// The Java major version in `java -version` output.
pub open spec fn spec_parse_version(output: Seq<char>) -> Option<u32> {
    java_major(output)
}

/// Reads the Java major version from `java -version` output.
pub fn parse_version(output: &str) -> (r: Option<u32>)
    ensures
        r == spec_parse_version(output@),
{
    let c = chars_of(output);
    java_major_chars(c.as_slice())
}

/// The build files a detection looks for: the configured one, else
/// `build.gradle.kts`, then `build.gradle`.
pub open spec fn spec_candidates(configured: Option<Seq<char>>) -> Seq<Seq<char>> {
    match configured {
        Some(p) => seq![p],
        None => seq!["build.gradle.kts"@, "build.gradle"@],
    }
}

pub fn candidates(configured: Option<&str>) -> (r: Vec<String>)
    ensures
        strs(r@) == spec_candidates(opt_view(configured)),
{
    let mut v: Vec<String> = Vec::new();
    match configured {
        Some(p) => {
            v.push(owned(p));
        },
        None => {
            v.push(owned("build.gradle.kts"));
            v.push(owned("build.gradle"));
        },
    }
    assert(strs(v@) =~= spec_candidates(opt_view(configured)));
    v
}

/// The outcome of detection: `java` answering `java -version` on stderr
/// (`version`), at least 11, `./gradlew` existing (`gradlew`), then the first
/// candidate build file that exists (`exists[i]` for candidate `i`).
pub open spec fn spec_detect(version: Option<ToolOutput>, gradlew: bool, configured: Option<Seq<char>>, exists: Seq<bool>) -> Result<Seq<char>, Seq<char>> {
    match version {
        None => Err("java not found on PATH"@),
        Some(o) => match gate_major(spec_parse_version(o.stderr@), 11, first_line_found(trim(o.stderr@))) {
            Err((minimum, found)) => Err("java version "@ + found + " is too old (minimum "@ + minimum + ")"@),
            Ok(_) => if !gradlew {
                Err("./gradlew not found — is this a Gradle project?"@)
            } else {
                match first_existing(spec_candidates(configured), exists) {
                    Some(f) => Ok(f),
                    None => Err("build.gradle.kts (or build.gradle) not found at "@ + match configured {
                        Some(p) => p,
                        None => "build.gradle.kts"@,
                    }),
                }
            },
        },
    }
}

/// Checks that Gradle can build the project with a recent enough Java.
pub fn detect_kotlin(version: Option<ToolOutput>, gradlew: bool, configured: Option<&str>, exists: &[bool]) -> (r: Result<String, KotlinError>)
    requires
        exists@.len() == spec_candidates(opt_view(configured)).len(),
    ensures
        match r {
            Ok(p) => spec_detect(version, gradlew, opt_view(configured), exists@) == Ok::<Seq<char>, Seq<char>>(p@),
            Err(e) => spec_detect(version, gradlew, opt_view(configured), exists@) == Err::<Seq<char>, Seq<char>>(e.spec_message()),
        },
{
    let o = match version {
        Some(o) => o,
        None => return Err(KotlinError::JavaNotFound),
    };
    let parsed = parse_version(o.stderr.as_str());
    let t = trim_str(o.stderr.as_str());
    match check_major(parsed, 11, first_line_found_of(t.as_str())) {
        Err(t) => return Err(KotlinError::JavaTooOld { minimum: t.minimum, found: t.found }),
        Ok(_) => {},
    }
    if !gradlew {
        return Err(KotlinError::GradlewNotFound);
    }
    let cands = candidates(configured);
    match first_existing_of(&cands, exists) {
        Some(f) => Ok(f),
        None => Err(KotlinError::BuildFileMissing {
            path: match configured {
                Some(p) => owned(p),
                None => owned("build.gradle.kts"),
            },
        }),
    }
}

} // verus!
