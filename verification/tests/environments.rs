use testquorum::api::{RunKind, Trigger};
use testquorum::environments::github::{
    self, based_run, exchange_retry_delay, plan_event, plan_push, post_land_run, EventPlan, HandshakeError, SkipReason,
};
use testquorum::environments::unknown::{read_env, EnvRead, UnknownEnvironment};
use testquorum::environments::{detect_environment, EnvKind, EnvVars};
use testquorum::api::Commit;

fn env(pairs: &[(&str, &str)]) -> EnvVars {
    EnvVars { vars: pairs.iter().map(|(k, v)| (k.to_string(), v.to_string())).collect() }
}

#[test]
fn detects_github_when_actions_env_set() {
    assert_eq!(detect_environment(&env(&[("GITHUB_ACTIONS", "true")])).name(), "github");
}

#[test]
fn detects_unknown_when_actions_env_unset() {
    assert_eq!(detect_environment(&env(&[])).name(), "unknown");
}

#[test]
fn detects_unknown_when_actions_env_not_true() {
    assert_eq!(detect_environment(&env(&[("GITHUB_ACTIONS", "false")])).name(), "unknown");
}

#[test]
fn missing_repo_id_yields_none() {
    assert!(matches!(read_env(&env(&[])), EnvRead::Missing));
}

#[test]
fn full_context_parses() {
    let e = env(&[
        ("TQ_REPO_ID", "github:12345"),
        ("TQ_RUN_KIND", "diff"),
        ("TQ_HEAD_SHA", "aaaa"),
        ("TQ_HEAD_HEIGHT", "42"),
        ("TQ_MERGE_BASE_SHA", "bbbb"),
        ("TQ_MERGE_BASE_HEIGHT", "40"),
    ]);
    let ctx = match read_env(&e) {
        EnvRead::Present(r) => r.expect("should parse"),
        EnvRead::Missing => panic!("expected Present"),
    };
    assert_eq!(ctx.repo_id, "github:12345");
    assert_eq!(ctx.run.head.sha, "aaaa");
    assert_eq!(ctx.run.head.height, 42);
    match ctx.run.kind {
        RunKind::Diff(base) => {
            assert_eq!(base.sha, "bbbb");
            assert_eq!(base.height, 40);
        }
        _ => panic!("expected Diff"),
    }
}

#[test]
fn malformed_height_is_error() {
    let e = env(&[
        ("TQ_REPO_ID", "github:1"),
        ("TQ_RUN_KIND", "diff"),
        ("TQ_HEAD_SHA", "x"),
        ("TQ_HEAD_HEIGHT", "not-a-number"),
        ("TQ_MERGE_BASE_SHA", "y"),
        ("TQ_MERGE_BASE_HEIGHT", "1"),
    ]);
    let r = match read_env(&e) {
        EnvRead::Present(r) => r,
        EnvRead::Missing => panic!("expected Present"),
    };
    assert!(r.is_err());
}

#[test]
fn missing_kind_when_repo_id_set_is_error() {
    let e = env(&[
        ("TQ_REPO_ID", "github:1"),
        ("TQ_HEAD_SHA", "x"),
        ("TQ_HEAD_HEIGHT", "1"),
        ("TQ_MERGE_BASE_SHA", "y"),
        ("TQ_MERGE_BASE_HEIGHT", "0"),
    ]);
    let r = match read_env(&e) {
        EnvRead::Present(r) => r,
        EnvRead::Missing => panic!("expected Present"),
    };
    assert!(r.is_err());
}

#[test]
fn unknown_kind_is_error() {
    let e = env(&[
        ("TQ_REPO_ID", "github:1"),
        ("TQ_RUN_KIND", "rebase"),
        ("TQ_HEAD_SHA", "x"),
        ("TQ_HEAD_HEIGHT", "1"),
        ("TQ_MERGE_BASE_SHA", "y"),
        ("TQ_MERGE_BASE_HEIGHT", "0"),
    ]);
    let r = match read_env(&e) {
        EnvRead::Present(r) => r,
        EnvRead::Missing => panic!("expected Present"),
    };
    assert!(r.is_err());
}

#[test]
fn context_errors_name_the_variable() {
    let base = [
        ("TQ_REPO_ID", "r"),
        ("TQ_RUN_KIND", "land"),
        ("TQ_HEAD_SHA", "x"),
        ("TQ_HEAD_HEIGHT", "99999999999999999999"),
        ("TQ_MERGE_BASE_SHA", "y"),
        ("TQ_MERGE_BASE_HEIGHT", "0"),
    ];
    let msg = match read_env(&env(&base)) {
        EnvRead::Present(Err(e)) => e.message(),
        _ => panic!("expected an error"),
    };
    assert_eq!(msg, "TQ_HEAD_HEIGHT is not a valid i64: number too large to fit in target type");
    let mut kinds = base;
    kinds[3] = ("TQ_HEAD_HEIGHT", "7");
    kinds[1] = ("TQ_RUN_KIND", "rebase");
    let msg = match read_env(&env(&kinds)) {
        EnvRead::Present(Err(e)) => e.message(),
        _ => panic!("expected an error"),
    };
    assert_eq!(msg, "TQ_RUN_KIND must be one of diff|land|merge, got \"rebase\"");
    kinds[1] = ("TQ_RUN_KIND", "");
    let msg = match read_env(&env(&kinds)) {
        EnvRead::Present(Err(e)) => e.message(),
        _ => panic!("expected an error"),
    };
    assert_eq!(msg, "TQ_RUN_KIND must be set when TQ_REPO_ID is set");
    kinds[1] = ("TQ_RUN_KIND", "merge");
    match read_env(&env(&kinds)) {
        EnvRead::Present(Ok(ctx)) => assert!(matches!(ctx.run.kind, RunKind::Merge(_))),
        _ => panic!("expected a context"),
    }
    assert_eq!(UnknownEnvironment::new().name(), "unknown");
    assert_eq!(EnvKind::GitHub.name(), "github");
}

#[test]
fn events_plan_their_runs() {
    assert_eq!(plan_event("pull_request", "main", "", "", ""), EventPlan::DiffAgainst { branch: "main".to_string() });
    assert_eq!(
        plan_event("pull_request_target", "", "", "", ""),
        EventPlan::Skip(SkipReason::EmptyBaseRef)
    );
    assert_eq!(plan_event("push", "", "main", "tag", "/e.json"), EventPlan::Skip(SkipReason::TagPush));
    assert_eq!(plan_event("push", "", "main", "branch", "/e.json"), EventPlan::ReadPushPayload);
    let skip = plan_event("push", "", "main", "branch", "");
    match skip {
        EventPlan::Skip(r) => assert_eq!(r.message(), "GITHUB_EVENT_PATH is not set on a push event"),
        _ => panic!("expected a skip"),
    }
    assert_eq!(
        plan_event("schedule", "", "main", "branch", ""),
        EventPlan::PostLand { branch: "main".to_string(), trigger: Trigger::Scheduled }
    );
    assert_eq!(
        plan_event("workflow_dispatch", "", "dev", "branch", ""),
        EventPlan::PostLand { branch: "dev".to_string(), trigger: Trigger::Manual }
    );
    match plan_event("workflow_dispatch", "", "", "", "") {
        EventPlan::Skip(r) => assert_eq!(r.message(), "GITHUB_REF_NAME is empty on a workflow_dispatch event"),
        _ => panic!("expected a skip"),
    }
    assert_eq!(plan_event("merge_group", "", "", "", "/e.json"), EventPlan::ReadMergeGroupPayload);
    match plan_event("release", "", "", "", "") {
        EventPlan::Skip(r) => assert_eq!(r.message(), "GITHUB_EVENT_NAME=release is not supported for upload"),
        _ => panic!("expected a skip"),
    }
}

#[test]
fn pushes_land_only_on_the_default_branch() {
    assert_eq!(plan_push("main", "main"), EventPlan::PostLand { branch: "main".to_string(), trigger: Trigger::Push });
    assert_eq!(plan_push("feature", "main"), EventPlan::DiffAgainst { branch: "main".to_string() });
    assert_eq!(github::diff_target("main"), "refs/remotes/origin/main");
    let head = Commit { sha: "h".to_string(), height: 10 };
    let base = Commit { sha: "b".to_string(), height: 7 };
    assert_eq!(based_run(head.clone(), true, base.clone()).kind, RunKind::Land(base.clone()));
    assert_eq!(based_run(head.clone(), false, base.clone()).kind, RunKind::Diff(base));
    assert_eq!(
        post_land_run(head, "main".to_string(), Trigger::Push).kind,
        RunKind::PostLand { branch: "main".to_string(), trigger: Trigger::Push }
    );
    let r = SkipReason::HeadMissing { sha: "abc".to_string(), detail: "object not found".to_string() };
    assert_eq!(r.message(), "head sha abc not present locally (shallow clone?): object not found");
}

#[test]
fn exchange_retries_three_times_on_conflict() {
    assert_eq!(exchange_retry_delay(0, true), Some(1));
    assert_eq!(exchange_retry_delay(1, true), Some(2));
    assert_eq!(exchange_retry_delay(2, true), Some(4));
    assert_eq!(exchange_retry_delay(3, true), None);
    assert_eq!(exchange_retry_delay(0, false), None);
}

#[test]
fn handshake_inputs_require_every_variable() {
    let full = [
        ("GITHUB_REPOSITORY", "o/r"),
        ("GITHUB_RUN_ID", "123"),
        ("GITHUB_RUN_ATTEMPT", "2"),
        ("ACTIONS_RUNTIME_TOKEN", "tok"),
        ("ACTIONS_RESULTS_URL", "https://results/"),
    ];
    let h = github::handshake_inputs(&env(&full)).unwrap();
    assert_eq!(h.workflow_run_id, 123);
    assert_eq!(h.run_attempt, 2);
    let mut bad = full;
    bad[2] = ("GITHUB_RUN_ATTEMPT", "3000000000");
    assert_eq!(github::handshake_inputs(&env(&bad)).unwrap_err(), HandshakeError::BadRunAttempt);
    bad = full;
    bad[1] = ("GITHUB_RUN_ID", "x");
    assert_eq!(github::handshake_inputs(&env(&bad)).unwrap_err().message(), "GITHUB_RUN_ID is not a valid integer");
    assert_eq!(github::handshake_inputs(&env(&full[..4])).unwrap_err().message(), "missing ACTIONS_RESULTS_URL");
    assert_eq!(github::preset_auth_token(&env(&[("TQ_AUTH_TOKEN", "")])), None);
    assert_eq!(github::bearer_value("t"), "Bearer t");
}

#[test]
fn workflow_vars_need_repository_and_sha() {
    assert_eq!(github::workflow_vars(&env(&[])).unwrap_err(), "GITHUB_REPOSITORY_ID is not set");
    assert_eq!(github::workflow_vars(&env(&[("GITHUB_REPOSITORY_ID", "1")])).unwrap_err(), "GITHUB_SHA is not set");
    let w = github::workflow_vars(&env(&[("GITHUB_REPOSITORY_ID", "1"), ("GITHUB_SHA", "s"), ("GITHUB_EVENT_NAME", "push")])).unwrap();
    assert_eq!(w.event_name, "push");
    assert_eq!(w.base_ref, "");
    assert_eq!(github::github_repo_id("1"), "github:1");
}

#[test]
fn handshake_inputs_report_the_first_missing_variable() {
    let full = [
        ("GITHUB_REPOSITORY", "o/r"),
        ("GITHUB_RUN_ID", "12"),
        ("GITHUB_RUN_ATTEMPT", "1"),
        ("ACTIONS_RUNTIME_TOKEN", "tok"),
        ("ACTIONS_RESULTS_URL", "https://results/"),
    ];
    let names = ["GITHUB_REPOSITORY", "GITHUB_RUN_ID", "GITHUB_RUN_ATTEMPT", "ACTIONS_RUNTIME_TOKEN", "ACTIONS_RESULTS_URL"];
    for k in 0..names.len() {
        let without: Vec<(&str, &str)> = full.iter().copied().filter(|(n, _)| !names[k..].contains(n)).collect();
        assert_eq!(
            github::handshake_inputs(&env(&without)).unwrap_err(),
            HandshakeError::Missing { name: names[k].to_string() }
        );
    }
    assert_eq!(
        github::handshake_inputs(&env(&[("GITHUB_RUN_ID", "x")])).unwrap_err(),
        HandshakeError::Missing { name: "GITHUB_REPOSITORY".to_string() }
    );
}
