//! The `cargo nextest` backend: where it takes test binaries from, and the commands it runs.

use vstd::prelude::*;

use crate::text::{chars_of, concat, lemma_strs_push, owned, strs};

verus! {

/// Where nextest takes its test binaries from.
#[derive(Debug, Clone, PartialEq, Eq)]
pub enum NextestSource {
    /// Built from the local workspace of this `Cargo.toml`.
    Local { manifest_path: String },
    /// A prebuilt `.tar.zst` archive, its paths remapped onto `workspace_remap`.
    Archive { archive_file: String, workspace_remap: String },
}

impl NextestSource {
    pub open spec fn spec_source_args(self) -> Seq<Seq<char>> {
        match self {
            NextestSource::Local { manifest_path } => seq!["--manifest-path"@, manifest_path@],
            NextestSource::Archive { archive_file, workspace_remap } => seq![
                "--archive-file"@,
                archive_file@,
                "--workspace-remap"@,
                workspace_remap@,
            ],
        }
    }

    /// The flags that point `cargo nextest list` and `run` at the binaries.
    pub fn source_args(&self) -> (r: Vec<String>)
        ensures
            strs(r@) == self.spec_source_args(),
    {
        let mut v: Vec<String> = Vec::new();
        match self {
            NextestSource::Local { manifest_path } => {
                v.push(owned("--manifest-path"));
                v.push(owned(manifest_path.as_str()));
            },
            NextestSource::Archive { archive_file, workspace_remap } => {
                v.push(owned("--archive-file"));
                v.push(owned(archive_file.as_str()));
                v.push(owned("--workspace-remap"));
                v.push(owned(workspace_remap.as_str()));
            },
        }
        assert(strs(v@) =~= self.spec_source_args());
        v
    }
}

/// Where a POSIX tar header keeps its magic.
pub const TAR_MAGIC_OFFSET: usize = 257;

/// `ustar`, the magic of a POSIX tar header.
pub open spec fn tar_magic() -> Seq<u8> {
    seq![0x75u8, 0x73u8, 0x74u8, 0x61u8, 0x72u8]
}

/// Whether `header` begins an uncompressed tar: `ustar` at offset 257. A
/// short read is no tar; a compressed archive keeps its magic at offset 0.
pub open spec fn spec_is_uncompressed_tar(header: Seq<u8>) -> bool {
    header.len() >= 262 && header.subrange(257, 262) == tar_magic()
}

pub fn is_uncompressed_tar(header: &[u8]) -> (r: bool)
    ensures
        r == spec_is_uncompressed_tar(header@),
{
    if header.len() < 262 {
        return false;
    }
    let ok = header[257] == 0x75u8 && header[258] == 0x73u8 && header[259] == 0x74u8
        && header[260] == 0x61u8 && header[261] == 0x72u8;
    if ok {
        assert(header@.subrange(257, 262) =~= tar_magic());
    } else {
        assert(header@.subrange(257, 262) != tar_magic()) by {
            if header@.subrange(257, 262) == tar_magic() {
                assert(header@.subrange(257, 262)[0] == header@[257]);
                assert(header@.subrange(257, 262)[1] == header@[258]);
                assert(header@.subrange(257, 262)[2] == header@[259]);
                assert(header@.subrange(257, 262)[3] == header@[260]);
                assert(header@.subrange(257, 262)[4] == header@[261]);
            }
        }
    }
    ok
}

/// How a configured archive is staged for nextest, which takes only files named `*.tar.zst`.
#[derive(Debug, Clone, PartialEq, Eq)]
pub enum ArchiveStaging {
    /// An uncompressed tar: recompress it with `zstd` into a fresh directory.
    Recompress,
    /// Already compressed and named `*.tar.zst`: use it where it is.
    UseInPlace,
    /// Already compressed under another name: link it into a fresh directory as `archive.tar.zst`.
    LinkAs,
}

/// Chooses how to stage the archive at `raw_path` from its first bytes.
pub fn archive_staging(header: &[u8], raw_path: &str) -> (r: ArchiveStaging)
    ensures
        r == (if spec_is_uncompressed_tar(header@) {
            ArchiveStaging::Recompress
        } else if ".tar.zst"@.is_suffix_of(raw_path@) {
            ArchiveStaging::UseInPlace
        } else {
            ArchiveStaging::LinkAs
        }),
{
    if is_uncompressed_tar(header) {
        ArchiveStaging::Recompress
    } else {
        let c = chars_of(raw_path);
        let suffix = chars_of(".tar.zst");
        if crate::text::ends_with_chars(c.as_slice(), suffix.as_slice()) {
            ArchiveStaging::UseInPlace
        } else {
            ArchiveStaging::LinkAs
        }
    }
}

/// The `zstd` invocation that recompresses `raw_path` to `out`.
pub fn zstd_args(raw_path: &str, out: &str) -> (r: Vec<String>)
    ensures
        strs(r@) == seq!["-q"@, "-f"@, raw_path@, "-o"@, out@],
{
    let mut v: Vec<String> = Vec::new();
    v.push(owned("-q"));
    v.push(owned("-f"));
    v.push(owned(raw_path));
    v.push(owned("-o"));
    v.push(owned(out));
    assert(strs(v@) =~= seq!["-q"@, "-f"@, raw_path@, "-o"@, out@]);
    v
}

fn append_strings(v: &mut Vec<String>, w: &Vec<String>)
    ensures
        strs(final(v)@) == strs(old(v)@) + strs(w@),
{
    let n = w.len();
    for i in 0..n
        invariant
            n == w@.len(),
            strs(v@) == strs(old(v)@) + strs(w@.take(i as int)),
    {
        let ghost prev = v@;
        let x = owned(w[i].as_str());
        v.push(x);
        proof {
            lemma_strs_push(prev, x);
            lemma_strs_push(w@.take(i as int), w@[i as int]);
            assert(w@.take(i + 1) =~= w@.take(i as int).push(w@[i as int]));
            assert(strs(v@) =~= strs(old(v)@) + strs(w@.take(i + 1)));
        }
    }
    assert(w@.take(n as int) =~= w@);
}

/// The arguments of `cargo nextest list` in JSON for `source`.
pub fn nextest_list_args(source: &NextestSource) -> (r: Vec<String>)
    ensures
        strs(r@) == seq!["nextest"@, "list"@, "--message-format"@, "json"@] + source.spec_source_args(),
{
    let mut v: Vec<String> = Vec::new();
    v.push(owned("nextest"));
    v.push(owned("list"));
    v.push(owned("--message-format"));
    v.push(owned("json"));
    assert(strs(v@) =~= seq!["nextest"@, "list"@, "--message-format"@, "json"@]);
    let s = source.source_args();
    append_strings(&mut v, &s);
    v
}

/// The filter expression that selects exactly one test of one package.
pub open spec fn spec_nextest_filter(package: Seq<char>, test_name: Seq<char>) -> Seq<char> {
    "package(="@ + package + ") and test(="@ + test_name + ")"@
}

/// The arguments of `cargo nextest run` for one test of `source`.
pub fn nextest_run_args(source: &NextestSource, package: &str, test_name: &str) -> (r: Vec<String>)
    ensures
        strs(r@) == seq!["nextest"@, "run"@] + source.spec_source_args() + seq![
            "-E"@,
            spec_nextest_filter(package@, test_name@),
        ],
{
    let mut v: Vec<String> = Vec::new();
    v.push(owned("nextest"));
    v.push(owned("run"));
    assert(strs(v@) =~= seq!["nextest"@, "run"@]);
    let s = source.source_args();
    append_strings(&mut v, &s);
    let a = concat("package(=", package);
    let b = concat(a.as_str(), ") and test(=");
    let c = concat(b.as_str(), test_name);
    let filter = concat(c.as_str(), ")");
    let ghost before = strs(v@);
    v.push(owned("-E"));
    v.push(filter);
    assert(strs(v@) =~= before + seq!["-E"@, spec_nextest_filter(package@, test_name@)]);
    v
}

/// One test nextest lists: its package and its name within the package.
#[derive(Debug, Clone, PartialEq, Eq)]
pub struct NextestCase {
    pub package: String,
    pub test_name: String,
}

/// A suite of `cargo nextest list`: its package and its test cases.
#[derive(Debug, Clone, PartialEq, Eq)]
pub struct NextestSuite {
    pub package_name: String,
    pub testcases: Vec<String>,
}

/// The (package, test) pairs of some suites, suite by suite.
pub open spec fn suite_cases(suites: Seq<NextestSuite>) -> Seq<(Seq<char>, Seq<char>)>
    decreases suites.len(),
{
    if suites.len() == 0 {
        seq![]
    } else {
        suite_cases(suites.drop_last()) + strs(suites.last().testcases@).map_values(
            |t: Seq<char>| (suites.last().package_name@, t),
        )
    }
}

pub open spec fn case_views(cases: Seq<NextestCase>) -> Seq<(Seq<char>, Seq<char>)> {
    cases.map_values(|c: NextestCase| (c.package@, c.test_name@))
}

/// Every test case of every suite, with its suite's package.
pub fn nextest_cases(suites: &Vec<NextestSuite>) -> (r: Vec<NextestCase>)
    ensures
        case_views(r@) == suite_cases(suites@),
{
    let mut out: Vec<NextestCase> = Vec::new();
    let n = suites.len();
    for i in 0..n
        invariant
            n == suites@.len(),
            case_views(out@) == suite_cases(suites@.take(i as int)),
    {
        let s = &suites[i];
        let ghost base = case_views(out@);
        let m = s.testcases.len();
        for j in 0..m
            invariant
                m == s.testcases@.len(),
                case_views(out@) == base + strs(s.testcases@.take(j as int)).map_values(
                    |t: Seq<char>| (s.package_name@, t),
                ),
        {
            let ghost prev = out@;
            let c = NextestCase { package: owned(s.package_name.as_str()), test_name: owned(s.testcases[j].as_str()) };
            out.push(c);
            assert(case_views(out@) =~= case_views(prev).push((c.package@, c.test_name@)));
            proof {
                lemma_strs_push(s.testcases@.take(j as int), s.testcases@[j as int]);
                assert(s.testcases@.take(j + 1) =~= s.testcases@.take(j as int).push(s.testcases@[j as int]));
            }
            assert(strs(s.testcases@.take(j + 1)).map_values(|t: Seq<char>| (s.package_name@, t))
                =~= strs(s.testcases@.take(j as int)).map_values(|t: Seq<char>| (s.package_name@, t)).push((s.package_name@, s.testcases@[j as int]@)));
            assert(case_views(out@) =~= base + strs(s.testcases@.take(j + 1)).map_values(
                |t: Seq<char>| (s.package_name@, t),
            ));
        }
        assert(s.testcases@.take(m as int) =~= s.testcases@);
        assert(suites@.take(i + 1).drop_last() =~= suites@.take(i as int));
    }
    assert(suites@.take(n as int) =~= suites@);
    out
}

} // verus!
