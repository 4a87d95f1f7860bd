use testquorum::managers::cargo::{self, CargoBackend, CompilerArtifact, MetadataPackage};
use testquorum::managers::nextest::{self, ArchiveStaging, NextestCase, NextestSource, NextestSuite};
use testquorum::managers::{
    after_step, append_output, buck2, cmake, combine_output, dart, go, npm, r, sbt, StepNext, StepOutcome, Test,
    TestEvent,
};

fn strings(v: &[&str]) -> Vec<String> {
    v.iter().map(|s| s.to_string()).collect()
}

#[test]
fn go_runs_the_module_in_its_directory() {
    let m = go::GoManager::new("svc/go.mod".to_string());
    let tests = m.discover();
    assert_eq!(tests.len(), 1);
    assert_eq!(tests[0].name, "go test");
    assert_eq!(tests[0].manager.to_string(), "custom:go");
    let inv = go::invocations(&tests[0]).unwrap();
    assert_eq!(inv.len(), 1);
    assert_eq!(inv[0].program, "go");
    assert_eq!(inv[0].args, strings(&["test", "./..."]));
    assert_eq!(inv[0].dir.as_deref(), Some("svc"));
    let top = go::GoManager::new("go.mod".to_string()).discover();
    assert_eq!(go::invocations(&top[0]).unwrap()[0].dir.as_deref(), Some("."));
}

#[test]
fn cmake_configures_builds_then_tests() {
    let m = cmake::CmakeManager::new("CMakeLists.txt".to_string());
    let t = m.discover();
    assert_eq!(t[0].name, "ctest");
    assert_eq!(t[0].manager.to_string(), "custom:cmake");
    let inv = cmake::invocations(&t[0]).unwrap();
    assert_eq!(inv.len(), 3);
    assert_eq!(inv[0].args, strings(&["-B", "/build", ""]));
    assert_eq!(inv[1].args, strings(&["--build", "/build"]));
    assert_eq!(inv[2].program, "ctest");
    assert_eq!(inv[2].dir.as_deref(), Some("/build"));
    let nested = cmake::CmakeManager::new("native/CMakeLists.txt".to_string()).discover();
    let inv = cmake::invocations(&nested[0]).unwrap();
    assert_eq!(inv[0].args, strings(&["-B", "native/build", "native"]));
}

#[test]
fn dart_keeps_pub_get_output_when_test_cannot_start() {
    let m = dart::DartManager::new("app/pubspec.yaml".to_string());
    let inv = dart::invocations(&m.discover()[0]).unwrap();
    assert_eq!(inv.len(), 2);
    assert_eq!(inv[0].args, strings(&["pub", "get"]));
    assert!(!inv[0].keep_output_on_spawn_error);
    assert!(inv[1].keep_output_on_spawn_error);
    assert_eq!(inv[1].dir.as_deref(), Some("app"));
}

#[test]
fn other_managers_payloads_are_malformed() {
    let foreign = npm::NpmManager::new("package.json".to_string()).discover();
    let o = go::invocations(&foreign[0]).unwrap_err();
    assert!(!o.passed);
    assert_eq!(o.duration_ms, 0);
    assert_eq!(o.stderr, "malformed go payload: missing field `go_mod_path`");
}

#[test]
fn simple_suites_name_and_command() {
    let b = buck2::Buck2Manager::new("//...".to_string()).discover();
    assert_eq!(b[0].name, "buck2 test //...");
    assert_eq!(b[0].manager.to_string(), "custom:buck2");
    assert_eq!(buck2::invocations(&b[0]).unwrap()[0].args, strings(&["test", "//..."]));
    let n = npm::NpmManager::new("web/package.json".to_string()).discover();
    assert_eq!(n[0].manager.to_string(), "custom:npm");
    assert_eq!(npm::invocations(&n[0]).unwrap()[0].args, strings(&["test", "--prefix", "web"]));
    let rr = r::RManager::new("DESCRIPTION".to_string()).discover();
    assert_eq!(rr[0].name, "testthat");
    assert_eq!(r::invocations(&rr[0]).unwrap()[0].args, strings(&["-e", "testthat::test_dir(\"tests/testthat\")"]));
    let s = sbt::SbtManager::new("build.sbt".to_string()).discover();
    assert_eq!(s[0].name, "sbt test");
}

#[test]
fn append_output_joins_with_newlines() {
    let mut combined = String::new();
    append_output(&mut combined, b"", b"warn");
    assert_eq!(combined, "warn");
    append_output(&mut combined, b"out", b"");
    assert_eq!(combined, "warn\nout");
    append_output(&mut combined, b"a", b"b");
    assert_eq!(combined, "warn\nout\na\nb");
    assert_eq!(combine_output(b"x", b"y"), "x\ny");
    assert_eq!(combine_output(b"\xff", b""), "\u{fffd}");
}

#[test]
fn pipeline_steps_stop_on_failure_and_at_the_end() {
    let ran = |ok: bool, o: &str, e: &str| StepOutcome::Ran { success: ok, stdout: o.as_bytes().to_vec(), stderr: e.as_bytes().to_vec() };
    match after_step(String::new(), false, false, ran(true, "configured", "")) {
        StepNext::Continue { combined } => assert_eq!(combined, "configured"),
        other => panic!("unexpected {:?}", other),
    }
    assert_eq!(
        after_step("configured".to_string(), false, false, ran(false, "", "boom")),
        StepNext::Finish { passed: false, output: "configured\nboom".to_string() }
    );
    assert_eq!(
        after_step("x".to_string(), true, false, ran(true, "ok", "")),
        StepNext::Finish { passed: true, output: "x\nok".to_string() }
    );
    assert_eq!(
        after_step("got deps".to_string(), true, true, StepOutcome::SpawnFailed { error: "no such file".to_string() }),
        StepNext::Finish { passed: false, output: "got depsno such file".to_string() }
    );
    assert_eq!(
        after_step("got deps".to_string(), true, false, StepOutcome::SpawnFailed { error: "no such file".to_string() }),
        StepNext::Finish { passed: false, output: "no such file".to_string() }
    );
}

#[test]
fn parse_test_list_skips_benchmarks() {
    let output = "foo: test\nbar: benchmark\nbaz: test\n";
    let tests = cargo::parse_test_list(output);
    assert_eq!(tests, vec!["foo", "baz"]);
}

fn is_nextest(backend: &CargoBackend) -> bool {
    matches!(backend, CargoBackend::Nextest(_))
}

#[test]
fn decide_backend_auto_uses_nextest_when_available() {
    assert!(is_nextest(&cargo::decide_backend(None, true, "Cargo.toml")));
}

#[test]
fn decide_backend_auto_falls_back_without_nextest() {
    assert!(!is_nextest(&cargo::decide_backend(None, false, "Cargo.toml")));
}

#[test]
fn decide_backend_opt_out_forces_cargo_test_even_when_available() {
    assert!(!is_nextest(&cargo::decide_backend(Some(false), true, "Cargo.toml")));
}

#[test]
fn decide_backend_force_uses_nextest_when_available() {
    assert!(is_nextest(&cargo::decide_backend(Some(true), true, "Cargo.toml")));
}

#[test]
fn decide_backend_force_falls_back_when_missing() {
    assert!(!is_nextest(&cargo::decide_backend(Some(true), false, "Cargo.toml")));
}

#[test]
fn decide_backend_threads_manifest_path_into_local_source() {
    match cargo::decide_backend(None, true, "subdir/Cargo.toml") {
        CargoBackend::Nextest(NextestSource::Local { manifest_path }) => {
            assert_eq!(manifest_path, "subdir/Cargo.toml");
        }
        _ => panic!("expected local nextest backend"),
    }
}

#[test]
fn backend_messages() {
    assert_eq!(cargo::backend_announcement(&CargoBackend::CargoTest), "cargo: using cargo test backend");
    assert_eq!(
        cargo::fallback_warning(Some(true), false).as_deref(),
        Some("warning: cargo nextest requested but not found on PATH; using `cargo test`")
    );
    assert_eq!(cargo::fallback_warning(None, false), None);
}

#[test]
fn cargo_commands_per_kind_and_backend() {
    let unit = cargo::unit_test("my-crate", "tests::it_works".to_string());
    assert_eq!(unit.name, "my-crate::tests::it_works");
    assert_eq!(unit.manager.to_string(), "cargo");
    let inv = cargo::cargo_invocation(&unit, "Cargo.toml", &CargoBackend::CargoTest).unwrap();
    assert_eq!(
        inv.args,
        strings(&["test", "--manifest-path", "Cargo.toml", "-p", "my-crate", "--", "--exact", "tests::it_works", "--test-threads=1"])
    );
    let nx = CargoBackend::Nextest(NextestSource::Local { manifest_path: "Cargo.toml".to_string() });
    let inv = cargo::cargo_invocation(&unit, "Cargo.toml", &nx).unwrap();
    assert_eq!(
        inv.args,
        strings(&["nextest", "run", "--manifest-path", "Cargo.toml", "-E", "package(=my-crate) and test(=tests::it_works)"])
    );
    let doc = cargo::doctest_test("my-crate");
    assert_eq!(doc.name, "my-crate::[doctests]");
    let inv = cargo::cargo_invocation(&doc, "Cargo.toml", &nx).unwrap();
    assert_eq!(inv.args, strings(&["test", "--manifest-path", "Cargo.toml", "--doc", "-p", "my-crate"]));
}

#[test]
fn cargo_discovery_pieces() {
    let pkgs = vec![
        MetadataPackage { name: "a".to_string(), id: "a 0.1".to_string(), has_doctests: true },
        MetadataPackage { name: "b".to_string(), id: "b 0.1".to_string(), has_doctests: false },
        MetadataPackage { name: "a2".to_string(), id: "a 0.1".to_string(), has_doctests: true },
    ];
    let docs = cargo::doctest_tests(&pkgs);
    assert_eq!(docs.len(), 1);
    assert_eq!(docs[0].name, "a2::[doctests]");
    let arts = vec![
        CompilerArtifact { reason: "compiler-artifact".to_string(), package_id: "b 0.1".to_string(), profile_test: true, executable: Some("/t/b".to_string()) },
        CompilerArtifact { reason: "compiler-artifact".to_string(), package_id: "b 0.1".to_string(), profile_test: false, executable: Some("/t/lib".to_string()) },
        CompilerArtifact { reason: "build-finished".to_string(), package_id: "b 0.1".to_string(), profile_test: true, executable: None },
        CompilerArtifact { reason: "compiler-artifact".to_string(), package_id: "dep 1.0".to_string(), profile_test: true, executable: Some("/t/dep".to_string()) },
        CompilerArtifact { reason: "compiler-artifact".to_string(), package_id: "a 0.1".to_string(), profile_test: true, executable: Some("/t/a".to_string()) },
    ];
    let bins = cargo::test_binaries(&arts, &pkgs);
    assert_eq!(bins, vec![("/t/b".to_string(), "b".to_string()), ("/t/a".to_string(), "a2".to_string())]);
    let cases = vec![NextestCase { package: "a".to_string(), test_name: "t1".to_string() }];
    let units = cargo::nextest_unit_tests(&cases);
    assert_eq!(units[0].name, "a::t1");
    assert_eq!(units[0].manager.to_string(), "cargo");
}

#[test]
fn cargo_tests_group_by_package() {
    let t = |p: &str, n: &str| cargo::unit_test(p, n.to_string());
    let foreign = go::GoManager::new("go.mod".to_string()).discover().remove(0);
    let batch = vec![t("a", "x"), t("b", "y"), foreign, t("a", "z")];
    let (pkgs, groups) = cargo::group_by_package(batch);
    assert_eq!(pkgs.len(), 2);
    let ia = pkgs.iter().position(|p| p == "a").unwrap();
    let ib = pkgs.iter().position(|p| p == "b").unwrap();
    let names = |g: &Vec<Test>| g.iter().map(|t| t.name.clone()).collect::<Vec<_>>();
    assert_eq!(names(&groups[ia]), vec!["a::x", "a::z"]);
    assert_eq!(names(&groups[ib]), vec!["b::y"]);
}

fn header_with_magic_at(offset: usize) -> Vec<u8> {
    let mut h = vec![0u8; offset + 5];
    h[offset..offset + 5].copy_from_slice(b"ustar");
    h
}

#[test]
fn detects_ustar_header() {
    assert!(nextest::is_uncompressed_tar(&header_with_magic_at(nextest::TAR_MAGIC_OFFSET)));
}

#[test]
fn rejects_zstd_magic() {
    let mut h = vec![0u8; 512];
    h[..4].copy_from_slice(&[0x28, 0xb5, 0x2f, 0xfd]);
    assert!(!nextest::is_uncompressed_tar(&h));
}

#[test]
fn rejects_short_read() {
    assert!(!nextest::is_uncompressed_tar(&[]));
    assert!(!nextest::is_uncompressed_tar(b"ustar"));
}

#[test]
fn archive_source_args_pass_archive_and_remap() {
    let source = NextestSource::Archive {
        archive_file: "/tmp/x/archive.tar.zst".to_string(),
        workspace_remap: ".".to_string(),
    };
    assert_eq!(
        source.source_args(),
        vec![
            "--archive-file".to_string(),
            "/tmp/x/archive.tar.zst".to_string(),
            "--workspace-remap".to_string(),
            ".".to_string(),
        ]
    );
}

#[test]
fn archive_staging_by_content_and_name() {
    let tar = header_with_magic_at(257);
    assert_eq!(nextest::archive_staging(&tar, "a.tar.zst"), ArchiveStaging::Recompress);
    assert_eq!(nextest::archive_staging(b"\x28\xb5\x2f\xfd", "a.tar.zst"), ArchiveStaging::UseInPlace);
    assert_eq!(nextest::archive_staging(b"\x28\xb5\x2f\xfd", "a.zst"), ArchiveStaging::LinkAs);
    assert_eq!(nextest::zstd_args("in.tar", "out.tar.zst"), strings(&["-q", "-f", "in.tar", "-o", "out.tar.zst"]));
}

#[test]
fn nextest_list_flattens_suites() {
    let suites = vec![
        NextestSuite { package_name: "a".to_string(), testcases: strings(&["t1", "t2"]) },
        NextestSuite { package_name: "b".to_string(), testcases: strings(&["u"]) },
    ];
    let cases = nextest::nextest_cases(&suites);
    let flat: Vec<(String, String)> = cases.into_iter().map(|c| (c.package, c.test_name)).collect();
    assert_eq!(
        flat,
        vec![("a".to_string(), "t1".to_string()), ("a".to_string(), "t2".to_string()), ("b".to_string(), "u".to_string())]
    );
    let src = NextestSource::Local { manifest_path: "Cargo.toml".to_string() };
    assert_eq!(
        nextest::nextest_list_args(&src),
        strings(&["nextest", "list", "--message-format", "json", "--manifest-path", "Cargo.toml"])
    );
}

#[test]
fn foreign_tests_in_a_cargo_batch_still_get_events() {
    let t = |p: &str, n: &str| cargo::unit_test(p, n.to_string());
    let foreign = go::GoManager::new("go.mod".to_string()).discover().remove(0);
    let batch = vec![t("a", "x"), foreign, t("b", "y")];
    let events = cargo::ungrouped_events(&batch);
    assert_eq!(events.len(), 2);
    match &events[0] {
        TestEvent::Started { name, manager } => {
            assert_eq!(name, "go test");
            assert_eq!(manager.to_string(), "cargo");
        }
        other => panic!("expected Started, got {:?}", other),
    }
    match &events[1] {
        TestEvent::Finished { name, manager, outcome } => {
            assert_eq!(name, "go test");
            assert_eq!(manager.to_string(), "cargo");
            assert!(!outcome.passed);
            assert_eq!(outcome.duration_ms, 0);
            assert_eq!(outcome.stderr, "malformed cargo payload: missing field `package`");
        }
        other => panic!("expected Finished, got {:?}", other),
    }
    assert!(cargo::ungrouped_events(&vec![t("a", "x")]).is_empty());
}
