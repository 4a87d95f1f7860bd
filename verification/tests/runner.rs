use testquorum::api::{TestManager, WellKnownTestManager};
use testquorum::config::{default_config, NixConfig, TreefmtConfig};
use testquorum::managers::nix_builder::PreFailed;
use testquorum::managers::{go, npm, TestEvent, TestOutcome};
use testquorum::runner;
use testquorum::runner::{
    discovery_error_report, discovery_listing, final_result, nothing_to_run, plan_registry, plan_run, render_event,
    route_batch, sorted_names, RunResult, RunSource, Tally, Transition,
};

#[test]
fn registry_follows_config_and_markers() {
    let c = default_config();
    let p = plan_registry(&c, true, false, true);
    assert_eq!(p.nix_attrset.as_deref(), Some("checks"));
    assert!(p.cargo && !p.npm && p.r);
    assert_eq!(p.treefmt, Some(None));
    let mut c2 = default_config();
    c2.managers.nix = Some(NixConfig { enabled: true, attrset: "ci".to_string() });
    c2.managers.treefmt = Some(TreefmtConfig { enabled: Some(false) });
    let p = plan_registry(&c2, true, true, false);
    assert_eq!(p.nix_attrset.as_deref(), Some("ci"));
    assert_eq!(p.treefmt, None);
    assert!(plan_registry(&c2, false, true, false).nix_attrset.is_none());
    c2.managers.autodetect = false;
    let p = plan_registry(&c2, true, true, true);
    assert!(p.nix_attrset.is_none() && !p.cargo && !p.npm && !p.r && p.treefmt.is_none());
}

#[test]
fn events_render_and_count() {
    let m: TestManager = WellKnownTestManager::Cargo.into();
    let (t, lines) = render_event(&TestEvent::Started { name: "a".to_string(), manager: m.clone() });
    assert_eq!(t, Transition::Started);
    assert_eq!(lines, vec!["  > a"]);
    let fail = TestEvent::Finished {
        name: "a".to_string(),
        manager: m.clone(),
        outcome: TestOutcome { passed: false, duration_ms: 12, stderr: "one\r\ntwo\n".to_string() },
    };
    let (t, lines) = render_event(&fail);
    assert_eq!(t, Transition::Failed);
    assert_eq!(lines, vec!["  FAIL a (12ms)", "    one", "    two"]);
    let pass = TestEvent::Finished {
        name: "b".to_string(),
        manager: m.clone(),
        outcome: TestOutcome { passed: true, duration_ms: 0, stderr: "noise".to_string() },
    };
    assert_eq!(render_event(&pass).1, vec!["  PASS b (0ms)"]);
    assert!(render_event(&TestEvent::Discovered { name: "x".to_string(), manager: m }).1.is_empty());
    let mut tally = Tally::new();
    tally.record(Transition::Passed);
    tally.record(Transition::Failed);
    tally.record(Transition::Started);
    tally.add_failed(2);
    assert_eq!(tally.summary(), "1 passed, 3 failed");
}

#[test]
fn run_results_and_exit_codes() {
    assert_eq!(final_result(1, 0), RunResult::Error);
    assert_eq!(final_result(0, 3), RunResult::TestsFailed);
    assert_eq!(final_result(0, 0), RunResult::Success);
    assert_eq!(RunResult::TestsFailed.exit_code(), 1);
    assert_eq!(RunResult::Error.exit_code(), 2);
    assert!(nothing_to_run(0, 0, 0));
    assert!(!nothing_to_run(0, 0, 1));
}

#[test]
fn discovery_reports() {
    let m: TestManager = WellKnownTestManager::Nix.into();
    let r = discovery_error_report(&vec![(m, "boom".to_string())]);
    assert_eq!(r, vec!["\n1 manager(s) failed to discover:", "  - nix: boom"]);
    assert!(discovery_error_report(&vec![]).is_empty());
    let mut tests = go::GoManager::new("go.mod".to_string()).discover();
    tests.extend(npm::NpmManager::new("package.json".to_string()).discover());
    tests.reverse();
    assert_eq!(sorted_names(&tests), vec!["go test", "npm test"]);
    let l = discovery_listing(&WellKnownTestManager::Cargo.into(), &tests);
    assert_eq!(l, vec!["cargo: 2 test(s)", "  - go test", "  - npm test"]);
}

#[test]
fn batches_route_to_the_first_matching_manager() {
    let go_tests = go::GoManager::new("go.mod".to_string()).discover();
    let npm_tests = npm::NpmManager::new("package.json".to_string()).discover();
    let go_id = go::manager_identity();
    let npm_id = npm::manager_identity();
    let mut batch = go_tests.clone();
    batch.extend(npm_tests.clone());
    let managers = vec![npm_id.clone(), go_id.clone(), go_id.clone()];
    let routed = route_batch(batch.clone(), &managers, &vec![]);
    assert_eq!(routed.len(), 3);
    assert_eq!(routed[0], npm_tests);
    assert_eq!(routed[1], go_tests);
    assert!(routed[2].is_empty());
    let skip = vec![(go_id.clone(), "go test".to_string())];
    let routed = route_batch(batch, &managers, &skip);
    assert!(routed[1].is_empty());
}

#[test]
fn run_source_choice() {
    assert_eq!(plan_run(None, true, &vec![]), RunSource::Local { upload: false });
    assert_eq!(plan_run(Some(Err("down".to_string())), false, &vec![]), RunSource::Local { upload: true });
    assert_eq!(
        plan_run(Some(Err("down".to_string())), true, &vec![]),
        RunSource::Fatal { message: "cloud failed and `[cloud] required = true`: down".to_string() }
    );
    let pf = vec![PreFailed { name: "archive".to_string(), manager: WellKnownTestManager::Nix.into(), stderr: "x".to_string() }];
    match plan_run(Some(Ok(())), false, &pf) {
        RunSource::Ranked { skip, failed } => {
            assert_eq!(failed, 1);
            assert_eq!(skip, vec![(TestManager::from(WellKnownTestManager::Nix), "archive".to_string())]);
        }
        other => panic!("unexpected {:?}", other),
    }
}

#[test]
fn shuffling_keeps_every_test() {
    let mut tests = go::GoManager::new("go.mod".to_string()).discover();
    tests.extend(npm::NpmManager::new("package.json".to_string()).discover());
    tests.extend(go::GoManager::new("b/go.mod".to_string()).discover());
    let shuffled = runner::shuffle(tests.clone());
    assert_eq!(shuffled.len(), 3);
    for t in &tests {
        assert_eq!(shuffled.iter().filter(|s| *s == t).count(), tests.iter().filter(|s| *s == t).count());
    }
}

#[test]
fn banners_name_the_environment() {
    assert_eq!(runner::unauthenticated_banner("unknown"), "unauthenticated (env: unknown)");
    assert_eq!(runner::authed_banner("octo", "github"), "authed as octo (env: github)");
    assert_eq!(runner::auth_failed_banner("github", "401"), "auth failed (env: github): 401");
    assert_eq!(runner::cloud_unavailable_notice("timeout"), "cloud unavailable (timeout); using local random order");
    assert_eq!(runner::discovery_total(3), "\nTotal: 3 test(s)");
    assert_eq!(runner::detection_warning("nix", "boom"), "warning: nix detection failed: boom");
}
