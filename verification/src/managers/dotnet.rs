//! The .NET manager: `dotnet test` of a solution or project.

use vstd::prelude::*;

use crate::api::{custom_prefix, TestManager};
use crate::managers::{
    malformed_message, malformed_outcome, single_test, Invocation, Test, TestOutcome,
    TestPayload,
};
use crate::managers::{check_major, gate_major, opt_view, ToolOutput};
use crate::text::{chars_of, concat, owned, strs, trim, trim_chars, trim_str};
use crate::version::{major_only, major_only_chars};

verus! {

/// Why the tool cannot be used here.
#[derive(Debug, Clone, PartialEq, Eq)]
pub enum DotnetError {
    DotnetNotFound,
    DotnetTooOld { minimum: String, found: String },
    ProjectNotFound,
    ProjectFileNotFound { path: String },
}

impl DotnetError {
    pub open spec fn spec_message(self) -> Seq<char> {
        match self {
            DotnetError::DotnetNotFound => "dotnet not found on PATH"@,
            DotnetError::DotnetTooOld { minimum, found } => "dotnet version "@ + found@ + " is too old (minimum "@ + minimum@ + ")"@,
            DotnetError::ProjectNotFound => "no .sln or .csproj file found"@,
            DotnetError::ProjectFileNotFound { path } => "project file not found at "@ + path@,
        }
    }

    /// The error as the runner reports it.
    pub fn message(&self) -> (r: String)
        ensures
            r@ == self.spec_message(),
    {
        match self {
            DotnetError::DotnetNotFound => owned("dotnet not found on PATH"),
            DotnetError::DotnetTooOld { minimum, found } => {
                let s0 = owned("dotnet version ");
                let s1 = concat(s0.as_str(), found.as_str());
                let s2 = concat(s1.as_str(), " is too old (minimum ");
                let s3 = concat(s2.as_str(), minimum.as_str());
                let s4 = concat(s3.as_str(), ")");
                s4
            },
            DotnetError::ProjectNotFound => owned("no .sln or .csproj file found"),
            DotnetError::ProjectFileNotFound { path } => {
                let s0 = owned("project file not found at ");
                let s1 = concat(s0.as_str(), path.as_str());
                s1
            },
        }
    }
}

/// The major version in `dotnet --version` output (`"8.0.100"` is 8).
pub open spec fn spec_parse_major_version(output: Seq<char>) -> Option<u32> {
    major_only(trim(output))
}

/// Reads the major version from `dotnet --version` output.
pub fn parse_major_version(output: &str) -> (r: Option<u32>)
    ensures
        r == spec_parse_major_version(output@),
{
    let c = chars_of(output);
    let t = trim_chars(c.as_slice());
    major_only_chars(t.as_slice())
}

/// Whether a directory entry is a solution or C# project file.
pub open spec fn is_project_file(name: Seq<char>) -> bool {
    ".sln"@.is_suffix_of(name) || ".csproj"@.is_suffix_of(name)
}

/// The first entry, in the order listed, that is a solution or project file.
pub open spec fn first_project(entries: Seq<Seq<char>>) -> Option<Seq<char>>
    decreases entries.len(),
{
    if entries.len() == 0 {
        None
    } else if is_project_file(entries[0]) {
        Some(entries[0])
    } else {
        first_project(entries.drop_first())
    }
}

fn first_project_of(entries: &Vec<String>) -> (r: Option<String>)
    ensures
        match r {
            Some(p) => first_project(strs(entries@)) == Some(p@),
            None => first_project(strs(entries@)) is None,
        },
{
    let sln = chars_of(".sln");
    let csproj = chars_of(".csproj");
    let n = entries.len();
    let mut i: usize = 0;
    assert(strs(entries@).skip(0) =~= strs(entries@));
    while i < n
        invariant
            n == entries@.len(),
            i <= n,
            sln@ == ".sln"@,
            csproj@ == ".csproj"@,
            first_project(strs(entries@)) == first_project(strs(entries@).skip(i as int)),
        decreases n - i,
    {
        assert(strs(entries@).skip(i as int).drop_first() =~= strs(entries@).skip(i + 1));
        let c = chars_of(entries[i].as_str());
        if crate::text::ends_with_chars(c.as_slice(), sln.as_slice()) || crate::text::ends_with_chars(c.as_slice(), csproj.as_slice()) {
            return Some(owned(entries[i].as_str()));
        }
        i = i + 1;
    }
    None
}

/// The outcome of detection: `dotnet` answering its version query
/// (`version`), at least version 6, then the configured project file existing
/// (`exists`), or, with none configured, a solution or project among the
/// current directory's entries (`entries`, `None` when it cannot be listed).
pub open spec fn spec_detect(version: Option<ToolOutput>, configured: Option<Seq<char>>, exists: bool, entries: Option<Seq<Seq<char>>>) -> Result<Seq<char>, Seq<char>> {
    match version {
        None => Err("dotnet not found on PATH"@),
        Some(o) => match gate_major(spec_parse_major_version(o.stdout@), 6, trim(o.stdout@)) {
            Err((minimum, found)) => Err("dotnet version "@ + found + " is too old (minimum "@ + minimum + ")"@),
            Ok(_) => match configured {
                Some(p) => if exists {
                    Ok(p)
                } else {
                    Err("project file not found at "@ + p)
                },
                None => match entries {
                    None => Err("no .sln or .csproj file found"@),
                    Some(es) => match first_project(es) {
                        Some(f) => Ok(f),
                        None => Err("no .sln or .csproj file found"@),
                    },
                },
            },
        },
    }
}

/// Checks that `dotnet` can run the project's tests, and finds the project.
pub fn detect_dotnet(version: Option<ToolOutput>, configured: Option<&str>, exists: bool, entries: Option<Vec<String>>) -> (r: Result<String, DotnetError>)
    ensures
        ({
            let es = match entries {
                Some(v) => Some(strs(v@)),
                None => None,
            };
            match r {
                Ok(p) => spec_detect(version, opt_view(configured), exists, es) == Ok::<Seq<char>, Seq<char>>(p@),
                Err(e) => spec_detect(version, opt_view(configured), exists, es) == Err::<Seq<char>, Seq<char>>(e.spec_message()),
            }
        }),
{
    let o = match version {
        Some(o) => o,
        None => return Err(DotnetError::DotnetNotFound),
    };
    let parsed = parse_major_version(o.stdout.as_str());
    match check_major(parsed, 6, trim_str(o.stdout.as_str())) {
        Err(t) => return Err(DotnetError::DotnetTooOld { minimum: t.minimum, found: t.found }),
        Ok(_) => {},
    }
    match configured {
        Some(p) => {
            if !exists {
                return Err(DotnetError::ProjectFileNotFound { path: owned(p) });
            }
            Ok(owned(p))
        },
        None => match entries {
            None => Err(DotnetError::ProjectNotFound),
            Some(es) => match first_project_of(&es) {
                Some(f) => Ok(f),
                None => Err(DotnetError::ProjectNotFound),
            },
        },
    }
}

/// This manager's wire identity, `custom:dotnet`.
pub open spec fn spec_identity(m: TestManager) -> bool {
    m is CustomTestManager && m.spec_wire() == custom_prefix() + "dotnet"@
}

/// The identity of the dotnet manager.
pub fn manager_identity() -> (r: TestManager)
    ensures
        spec_identity(r),
{
    proof {
        reveal_strlit("dotnet");
    }
    match TestManager::custom("dotnet") {
        Ok(m) => m,
        Err(_) => {
            proof {
                assert(false);
            }
            TestManager::well_known(crate::api::WellKnownTestManager::Cargo)
        },
    }
}

/// Runs `dotnet test` of a solution or project.
pub struct DotnetManager {
    project_path: String,
}

impl DotnetManager {
    /// The configured path this manager works from.
    pub closed spec fn config_path(&self) -> Seq<char> {
        self.project_path@
    }

    pub fn new(project_path: String) -> (r: DotnetManager)
        ensures
            r.config_path() == project_path@,
    {
        DotnetManager { project_path }
    }

    pub fn identity(&self) -> (r: TestManager)
        ensures
            spec_identity(r),
    {
        manager_identity()
    }

    /// The single test `dotnet test`, which runs the whole suite.
    pub fn discover(&self) -> (r: Vec<Test>)
        ensures
            r@.len() == 1,
            r@[0].name@ == "dotnet test"@,
            spec_identity(r@[0].manager),
            r@[0].payload matches TestPayload::Dotnet { project_path: p } && p@ == self.config_path(),
    {
        let payload = TestPayload::Dotnet { project_path: owned(self.project_path.as_str()) };
        single_test("dotnet test", manager_identity(), payload)
    }
}

/// The commands that run a test of this manager, or the failed outcome of a
/// test whose payload belongs to another manager.
pub fn invocations(test: &Test) -> (r: Result<Vec<Invocation>, TestOutcome>)
    ensures
        match test.payload {
            TestPayload::Dotnet { project_path: p } => r matches Ok(v) && (v@.len() == 1 && v@[0].program@ == "dotnet"@ && strs(v@[0].args@) == seq!["test"@, p@] && v@[0].dir is None && !v@[0].keep_output_on_spawn_error),
            _ => r matches Err(o) && (!o.passed && o.duration_ms == 0 && o.stderr@ == malformed_message("dotnet"@, "project_path"@)),
        },
{
    match &test.payload {
        TestPayload::Dotnet { project_path: p } => {
            let mut args: Vec<String> = Vec::new();
            args.push(owned("test"));
            args.push(owned(p.as_str()));
            assert(strs(args@) =~= seq!["test"@, p@]);
            Ok(crate::managers::single_invocation("dotnet", args, None))
        },
        _ => Err(malformed_outcome("dotnet", "project_path")),
    }
}

} // verus!
