use testquorum::managers::nix::{self, EvalAttr, EvalOutput, EvalSystem, NixManager};
use testquorum::managers::nix_builder::{self, build_tracked, ArchiveError, NixBuilder};
use testquorum::managers::{StepOutcome, TestPayload};

fn eval(current: &str, entries: &[(&str, &str, Option<&str>)]) -> EvalOutput {
    let mut per_system: Vec<EvalSystem> = Vec::new();
    for (system, name, drv) in entries {
        let attr = EvalAttr { name: name.to_string(), drv_path: drv.map(str::to_string) };
        match per_system.iter_mut().find(|s| s.system == *system) {
            Some(s) => s.attrs.push(attr),
            None => per_system.push(EvalSystem { system: system.to_string(), attrs: vec![attr] }),
        }
    }
    EvalOutput { current_system: current.to_string(), per_system }
}

#[test]
fn tracked_keeps_current_system_derivations_only() {
    let targets = build_tracked(&eval(
        "x86_64-linux",
        &[
            ("x86_64-linux", "archive", Some("/nix/store/a.drv")),
            ("x86_64-linux", "readme", None),
            ("aarch64-linux", "archive", Some("/nix/store/b.drv")),
        ],
    ));
    assert_eq!(targets.current_system(), "x86_64-linux");
    assert_eq!(targets.name_of("/nix/store/a.drv").as_deref(), Some("archive"));
    assert!(!targets.contains("/nix/store/b.drv"));
    assert_eq!(targets.len(), 1);
}

#[test]
fn tracked_membership_is_by_drv_identity() {
    let targets = build_tracked(&eval("x86_64-linux", &[("x86_64-linux", "archive", Some("/nix/store/a.drv"))]));
    assert!(targets.contains("/nix/store/a.drv"));
    assert!(!targets.contains("/nix/store/missing.drv"));
}

#[test]
fn tracked_aliases_keep_the_last_name() {
    let targets = build_tracked(&eval(
        "x86_64-linux",
        &[("x86_64-linux", "first", Some("/nix/store/a.drv")), ("x86_64-linux", "second", Some("/nix/store/a.drv"))],
    ));
    assert_eq!(targets.len(), 1);
    assert_eq!(targets.name_of("/nix/store/a.drv").as_deref(), Some("second"));
    let none = build_tracked(&eval("riscv64-linux", &[("x86_64-linux", "a", Some("/nix/store/a.drv"))]));
    assert_eq!(none.len(), 0);
}

#[test]
fn resolve_build_target_prefers_drv_path() {
    assert_eq!(
        nix::resolve_build_target("ci", "x86_64-linux", "foo", Some("/nix/store/abc-foo.drv")),
        "/nix/store/abc-foo.drv^*",
    );
}

#[test]
fn resolve_build_target_falls_back_to_flake_attribute() {
    assert_eq!(nix::resolve_build_target("ci", "x86_64-linux", "foo", None), ".#ci.x86_64-linux.foo");
}

#[test]
fn nix_discovery_uses_the_current_system() {
    let m = NixManager::new("checks".to_string());
    let e = eval(
        "x86_64-linux",
        &[("x86_64-linux", "clippy", Some("/nix/store/aaa-clippy.drv")), ("x86_64-linux", "fmt", None), ("aarch64-linux", "clippy", Some("/nix/store/bbb.drv"))],
    );
    let tests = m.discover(&e);
    assert_eq!(tests.len(), 2);
    assert_eq!(tests[0].name, "clippy");
    assert_eq!(tests[0].manager.to_string(), "nix");
    assert_eq!(tests[0].payload, TestPayload::Nix { build_target: "/nix/store/aaa-clippy.drv^*".to_string() });
    assert_eq!(tests[1].payload, TestPayload::Nix { build_target: ".#checks.x86_64-linux.fmt".to_string() });
    let inv = nix::nix_invocation(&tests[0]).unwrap();
    assert_eq!(inv.args, vec!["build", "/nix/store/aaa-clippy.drv^*", "--no-link", "--print-out-paths"]);
    assert_eq!(m.discover(&eval("riscv64-linux", &[])).len(), 0);
    assert_eq!(m.discover_args()[1], ".#checks");
}

#[test]
fn nix_build_result_is_the_build_log() {
    let (ok, log) = nix::build_result(StepOutcome::Ran { success: true, stdout: b"/nix/store/out".to_vec(), stderr: b"building".to_vec() });
    assert!(ok);
    assert_eq!(log, "building");
}

#[test]
fn system_placeholder_expands_everywhere() {
    assert_eq!(
        nix_builder::expand_system("nix://.#checks.${SYSTEM}.archive-${SYSTEM}", "x86_64-linux"),
        "nix://.#checks.x86_64-linux.archive-x86_64-linux"
    );
    assert_eq!(nix_builder::expand_system("no placeholder", "x"), "no placeholder");
}

#[test]
fn archive_membership_and_build_paths() {
    let targets = build_tracked(&eval("x86_64-linux", &[("x86_64-linux", "archive", Some("/nix/store/a.drv"))]));
    let ok = nix_builder::archive_membership(&targets, "i".to_string(), Some("/nix/store/a.drv".to_string())).unwrap();
    assert_eq!(ok, ("/nix/store/a.drv".to_string(), "archive".to_string()));
    assert_eq!(
        nix_builder::archive_membership(&targets, "i".to_string(), Some("/nix/store/z.drv".to_string())).unwrap_err(),
        ArchiveError::Untracked("i".to_string())
    );
    assert_eq!(
        nix_builder::out_path_of(StepOutcome::Ran { success: true, stdout: b"/nix/store/x\n/nix/store/y  \n".to_vec(), stderr: vec![] }).unwrap(),
        "/nix/store/y"
    );
    assert_eq!(
        nix_builder::out_path_of(StepOutcome::Ran { success: false, stdout: vec![], stderr: b"  error: boom \n".to_vec() }).unwrap_err(),
        "error: boom"
    );
    assert_eq!(
        nix_builder::out_path_of(StepOutcome::SpawnFailed { error: "not found".to_string() }).unwrap_err(),
        "running nix build: not found (is `nix` installed?)"
    );
    assert_eq!(
        nix_builder::drv_path_of(StepOutcome::Ran { success: true, stdout: b" /nix/store/a.drv\n".to_vec(), stderr: vec![] }).as_deref(),
        Some("/nix/store/a.drv")
    );
    let mut b = NixBuilder::new("checks".to_string());
    b.record_failure("archive".to_string(), "log".to_string());
    let taken = b.take_pre_failed();
    assert_eq!(taken.len(), 1);
    assert_eq!(taken[0].manager.to_string(), "nix");
    assert!(b.take_pre_failed().is_empty());
}

#[test]
fn drv_eval_asks_for_the_drv_path() {
    assert_eq!(nix_builder::drv_eval_args(".#checks.x.a"), vec!["eval", "--impure", "--raw", ".#checks.x.a.drvPath"]);
}
