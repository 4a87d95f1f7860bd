//! The GitHub Actions environment: the run context it derives from the
//! workflow event, and the challenge-response handshake that turns a
//! workflow's identity into an API key.

use vstd::prelude::*;
use vstd::string::StringSliceAdditionalSpecFns;

use crate::api::{Commit, Run, RunKind, Trigger};
use crate::environments::artifact::{base64url_encoded, encode_base64url};
use crate::environments::{env_non_empty, EnvKind, EnvVars};
use crate::text::{chars_eq, chars_of, concat, owned, parse_i64, parse_i64_chars};

verus! {

/// The GitHub Actions environment.
pub struct GitHubEnvironment;

impl GitHubEnvironment {
    pub fn new() -> (r: GitHubEnvironment) {
        GitHubEnvironment
    }

    pub fn name(&self) -> (r: String)
        ensures
            r@ == EnvKind::GitHub.spec_name(),
    {
        EnvKind::GitHub.name()
    }
}

fn eq_str(a: &str, b: &str) -> (r: bool)
    ensures
        r == (a@ == b@),
{
    let x = chars_of(a);
    let y = chars_of(b);
    chars_eq(x.as_slice(), y.as_slice())
}

// ---------------------------------------------------------------------------
// Run context
// ---------------------------------------------------------------------------

/// Why no run is uploaded for this workflow invocation.
#[derive(Debug, Clone, PartialEq, Eq)]
pub enum SkipReason {
    OpenRepo { detail: String },
    HeadMissing { sha: String, detail: String },
    HeadWalk { sha: String, detail: String },
    EmptyBaseRef,
    TagPush,
    EmptyRefName { event: String },
    NoEventPath { event: String },
    ReadEventPath { detail: String },
    BadPayload { event: String, detail: String },
    UnresolvedTarget { target: String, detail: String },
    MergeBase { detail: String },
    MergeGroupBaseMissing { sha: String, detail: String },
    UnsupportedEvent { event: String },
    BaseWalk { detail: String },
}

impl SkipReason {
    pub open spec fn spec_message(self) -> Seq<char> {
        match self {
            SkipReason::OpenRepo { detail } => "could not open repo: "@ + detail@,
            SkipReason::HeadMissing { sha, detail } => "head sha "@ + sha@
                + " not present locally (shallow clone?): "@ + detail@,
            SkipReason::HeadWalk { sha, detail } => "could not walk history from "@ + sha@ + ": "@
                + detail@,
            SkipReason::EmptyBaseRef => "GITHUB_BASE_REF is empty on a pull_request event"@,
            SkipReason::TagPush => "tag pushes are not supported for upload"@,
            SkipReason::EmptyRefName { event } => "GITHUB_REF_NAME is empty on a "@ + event@
                + " event"@,
            SkipReason::NoEventPath { event } => "GITHUB_EVENT_PATH is not set on a "@ + event@
                + " event"@,
            SkipReason::ReadEventPath { detail } => "could not read GITHUB_EVENT_PATH: "@ + detail@,
            SkipReason::BadPayload { event, detail } => "could not parse "@ + event@
                + " event payload: "@ + detail@,
            SkipReason::UnresolvedTarget { target, detail } => "could not resolve "@ + target@
                + " (fetch-depth too shallow?): "@ + detail@,
            SkipReason::MergeBase { detail } => "could not compute merge-base: "@ + detail@,
            SkipReason::MergeGroupBaseMissing { sha, detail } => "merge_group base sha "@ + sha@
                + " not present locally (shallow clone?): "@ + detail@,
            SkipReason::UnsupportedEvent { event } => "GITHUB_EVENT_NAME="@ + event@
                + " is not supported for upload"@,
            SkipReason::BaseWalk { detail } => "could not walk history from merge base: "@
                + detail@,
        }
    }

    /// The reason as the upload-skipped warning prints it.
    pub fn message(&self) -> (r: String)
        ensures
            r@ == self.spec_message(),
    {
        match self {
            SkipReason::OpenRepo { detail } => concat("could not open repo: ", detail.as_str()),
            SkipReason::HeadMissing { sha, detail } => {
                let a = concat("head sha ", sha.as_str());
                let b = concat(a.as_str(), " not present locally (shallow clone?): ");
                concat(b.as_str(), detail.as_str())
            },
            SkipReason::HeadWalk { sha, detail } => {
                let a = concat("could not walk history from ", sha.as_str());
                let b = concat(a.as_str(), ": ");
                concat(b.as_str(), detail.as_str())
            },
            SkipReason::EmptyBaseRef => owned("GITHUB_BASE_REF is empty on a pull_request event"),
            SkipReason::TagPush => owned("tag pushes are not supported for upload"),
            SkipReason::EmptyRefName { event } => {
                let a = concat("GITHUB_REF_NAME is empty on a ", event.as_str());
                concat(a.as_str(), " event")
            },
            SkipReason::NoEventPath { event } => {
                let a = concat("GITHUB_EVENT_PATH is not set on a ", event.as_str());
                concat(a.as_str(), " event")
            },
            SkipReason::ReadEventPath { detail } => concat(
                "could not read GITHUB_EVENT_PATH: ",
                detail.as_str(),
            ),
            SkipReason::BadPayload { event, detail } => {
                let a = concat("could not parse ", event.as_str());
                let b = concat(a.as_str(), " event payload: ");
                concat(b.as_str(), detail.as_str())
            },
            SkipReason::UnresolvedTarget { target, detail } => {
                let a = concat("could not resolve ", target.as_str());
                let b = concat(a.as_str(), " (fetch-depth too shallow?): ");
                concat(b.as_str(), detail.as_str())
            },
            SkipReason::MergeBase { detail } => concat(
                "could not compute merge-base: ",
                detail.as_str(),
            ),
            SkipReason::MergeGroupBaseMissing { sha, detail } => {
                let a = concat("merge_group base sha ", sha.as_str());
                let b = concat(a.as_str(), " not present locally (shallow clone?): ");
                concat(b.as_str(), detail.as_str())
            },
            SkipReason::UnsupportedEvent { event } => {
                let a = concat("GITHUB_EVENT_NAME=", event.as_str());
                concat(a.as_str(), " is not supported for upload")
            },
            SkipReason::BaseWalk { detail } => concat(
                "could not walk history from merge base: ",
                detail.as_str(),
            ),
        }
    }
}

/// What a workflow event calls for once the head commit is known.
#[derive(Debug, Clone, PartialEq, Eq)]
pub enum EventPlan {
    /// A diff against the merge-base of the head with `origin/<branch>`.
    DiffAgainst { branch: String },
    /// A push: read the event payload and compare its default branch with the pushed ref.
    ReadPushPayload,
    /// A post-land check of `branch`'s tip, with no merge base.
    PostLand { branch: String, trigger: Trigger },
    /// A merge-queue group: read the event payload; its `base_sha` is the land's merge base.
    ReadMergeGroupPayload,
    /// No run for this event.
    Skip(SkipReason),
}

pub open spec fn is_pull_request(event: Seq<char>) -> bool {
    event == "pull_request"@ || event == "pull_request_target"@
}

pub open spec fn is_post_land_event(event: Seq<char>) -> bool {
    event == "schedule"@ || event == "workflow_dispatch"@
}

/// Why an event yields no run, before any payload is read; `None` when it may yield one.
pub open spec fn event_skip(
    event: Seq<char>,
    base_ref: Seq<char>,
    ref_name: Seq<char>,
    ref_type: Seq<char>,
    event_path: Seq<char>,
) -> Option<Seq<char>> {
    if is_pull_request(event) {
        if base_ref.len() == 0 {
            Some("GITHUB_BASE_REF is empty on a pull_request event"@)
        } else {
            None
        }
    } else if event == "push"@ {
        if ref_type == "tag"@ {
            Some("tag pushes are not supported for upload"@)
        } else if ref_name.len() == 0 {
            Some("GITHUB_REF_NAME is empty on a "@ + event + " event"@)
        } else if event_path.len() == 0 {
            Some("GITHUB_EVENT_PATH is not set on a "@ + event + " event"@)
        } else {
            None
        }
    } else if is_post_land_event(event) {
        if ref_name.len() == 0 {
            Some("GITHUB_REF_NAME is empty on a "@ + event + " event"@)
        } else {
            None
        }
    } else if event == "merge_group"@ {
        if event_path.len() == 0 {
            Some("GITHUB_EVENT_PATH is not set on a "@ + event + " event"@)
        } else {
            None
        }
    } else {
        Some("GITHUB_EVENT_NAME="@ + event + " is not supported for upload"@)
    }
}

/// An event yields a run exactly when it is a pull request with a base
/// branch, a branch push with a ref name and an event payload, a scheduled or
/// manual run with a ref name, or a merge-queue group with an event payload;
/// every other event, tag pushes among them, is skipped.
pub proof fn lemma_events_that_run(
    event: Seq<char>,
    base_ref: Seq<char>,
    ref_name: Seq<char>,
    ref_type: Seq<char>,
    event_path: Seq<char>,
)
    ensures
        event_skip(event, base_ref, ref_name, ref_type, event_path) is None <==> {
            ||| (event == "pull_request"@ || event == "pull_request_target"@) && base_ref.len() > 0
            ||| event == "push"@ && ref_type != "tag"@ && ref_name.len() > 0 && event_path.len() > 0
            ||| (event == "schedule"@ || event == "workflow_dispatch"@) && ref_name.len() > 0
            ||| event == "merge_group"@ && event_path.len() > 0
        },
{
    reveal_strlit("pull_request");
    assert("pull_request"@.len() == 12);
    reveal_strlit("pull_request_target");
    assert("pull_request_target"@.len() == 19);
    reveal_strlit("push");
    assert("push"@.len() == 4);
    reveal_strlit("schedule");
    assert("schedule"@.len() == 8);
    reveal_strlit("workflow_dispatch");
    assert("workflow_dispatch"@.len() == 17);
    reveal_strlit("merge_group");
    assert("merge_group"@.len() == 11);
}

/// Decides what a workflow event calls for: pull requests diff against their
/// base branch, pushes depend on the payload's default branch, scheduled and
/// manual runs are post-land checks of the ref, merge-queue groups land on
/// the payload's base sha, and anything else is skipped.
pub fn plan_event(
    event_name: &str,
    base_ref: &str,
    ref_name: &str,
    ref_type: &str,
    event_path: &str,
) -> (r: EventPlan)
    ensures
        match r {
            EventPlan::Skip(reason) => event_skip(
                event_name@,
                base_ref@,
                ref_name@,
                ref_type@,
                event_path@,
            ) == Some(reason.spec_message()),
            EventPlan::DiffAgainst { branch } => is_pull_request(event_name@) && branch@
                == base_ref@,
            EventPlan::ReadPushPayload => event_name@ == "push"@,
            EventPlan::PostLand { branch, trigger } => is_post_land_event(event_name@) && branch@
                == ref_name@ && trigger == (if event_name@ == "schedule"@ {
                Trigger::Scheduled
            } else {
                Trigger::Manual
            }),
            EventPlan::ReadMergeGroupPayload => event_name@ == "merge_group"@,
        },
        r !is Skip ==> event_skip(event_name@, base_ref@, ref_name@, ref_type@, event_path@) is None,
        (event_name@ == "pull_request"@ || event_name@ == "pull_request_target"@) ==> if base_ref@.len()
            > 0 {
            r matches EventPlan::DiffAgainst { branch } && branch@ == base_ref@
        } else {
            r == EventPlan::Skip(SkipReason::EmptyBaseRef)
        },
        event_name@ == "push"@ ==> if ref_type@ == "tag"@ {
            r == EventPlan::Skip(SkipReason::TagPush)
        } else if ref_name@.len() == 0 {
            r matches EventPlan::Skip(SkipReason::EmptyRefName { event }) && event@ == event_name@
        } else if event_path@.len() == 0 {
            r matches EventPlan::Skip(SkipReason::NoEventPath { event }) && event@ == event_name@
        } else {
            r == EventPlan::ReadPushPayload
        },
        (event_name@ == "schedule"@ || event_name@ == "workflow_dispatch"@) ==> if ref_name@.len()
            == 0 {
            r matches EventPlan::Skip(SkipReason::EmptyRefName { event }) && event@ == event_name@
        } else {
            r matches EventPlan::PostLand { branch, trigger } && branch@ == ref_name@ && (trigger
                == Trigger::Scheduled <==> event_name@ == "schedule"@) && (trigger == Trigger::Manual
                <==> event_name@ == "workflow_dispatch"@)
        },
        event_name@ == "merge_group"@ ==> if event_path@.len() == 0 {
            r matches EventPlan::Skip(SkipReason::NoEventPath { event }) && event@ == event_name@
        } else {
            r == EventPlan::ReadMergeGroupPayload
        },
        !(event_name@ == "pull_request"@ || event_name@ == "pull_request_target"@ || event_name@
            == "push"@ || event_name@ == "schedule"@ || event_name@ == "workflow_dispatch"@
            || event_name@ == "merge_group"@) ==> (r matches EventPlan::Skip(
            SkipReason::UnsupportedEvent { event },
        ) && event@ == event_name@),
{
    proof {
        reveal_strlit("pull_request");
        assert("pull_request"@.len() == 12);
        reveal_strlit("pull_request_target");
        assert("pull_request_target"@.len() == 19);
        reveal_strlit("push");
        assert("push"@.len() == 4);
        reveal_strlit("schedule");
        assert("schedule"@.len() == 8);
        reveal_strlit("workflow_dispatch");
        assert("workflow_dispatch"@.len() == 17);
        reveal_strlit("merge_group");
        assert("merge_group"@.len() == 11);
    }
    if eq_str(event_name, "pull_request") || eq_str(event_name, "pull_request_target") {
        if base_ref.is_empty() {
            return EventPlan::Skip(SkipReason::EmptyBaseRef);
        }
        return EventPlan::DiffAgainst { branch: owned(base_ref) };
    }
    if eq_str(event_name, "push") {
        if eq_str(ref_type, "tag") {
            return EventPlan::Skip(SkipReason::TagPush);
        }
        if ref_name.is_empty() {
            return EventPlan::Skip(SkipReason::EmptyRefName { event: owned(event_name) });
        }
        if event_path.is_empty() {
            return EventPlan::Skip(SkipReason::NoEventPath { event: owned(event_name) });
        }
        return EventPlan::ReadPushPayload;
    }
    if eq_str(event_name, "schedule") || eq_str(event_name, "workflow_dispatch") {
        if ref_name.is_empty() {
            return EventPlan::Skip(SkipReason::EmptyRefName { event: owned(event_name) });
        }
        let trigger = if eq_str(event_name, "schedule") {
            Trigger::Scheduled
        } else {
            Trigger::Manual
        };
        return EventPlan::PostLand { branch: owned(ref_name), trigger };
    }
    if eq_str(event_name, "merge_group") {
        if event_path.is_empty() {
            return EventPlan::Skip(SkipReason::NoEventPath { event: owned(event_name) });
        }
        return EventPlan::ReadMergeGroupPayload;
    }
    EventPlan::Skip(SkipReason::UnsupportedEvent { event: owned(event_name) })
}

/// A push to the repository's default branch is a post-land check of it; a
/// push to any other branch is a diff against the default branch.
pub fn plan_push(ref_name: &str, default_branch: &str) -> (r: EventPlan)
    ensures
        ref_name@ == default_branch@ ==> r is PostLand && r->PostLand_trigger == Trigger::Push
            && r->PostLand_branch@ == ref_name@,
        ref_name@ != default_branch@ ==> r is DiffAgainst && r->DiffAgainst_branch@
            == default_branch@,
{
    if eq_str(ref_name, default_branch) {
        EventPlan::PostLand { branch: owned(ref_name), trigger: Trigger::Push }
    } else {
        EventPlan::DiffAgainst { branch: owned(default_branch) }
    }
}

/// The remote-tracking ref a diff's merge base is computed against.
pub fn diff_target(branch: &str) -> (r: String)
    ensures
        r@ == "refs/remotes/origin/"@ + branch@,
{
    concat("refs/remotes/origin/", branch)
}

/// The run of a post-land check: the head and the checked branch.
pub fn post_land_run(head: Commit, branch: String, trigger: Trigger) -> (r: Run)
    ensures
        r.head == head,
        r.kind == (RunKind::PostLand { branch, trigger }),
{
    Run { head, kind: RunKind::PostLand { branch, trigger } }
}

/// The run once the merge base is known: a land for a merge-queue group, a diff otherwise.
pub fn based_run(head: Commit, land: bool, merge_base: Commit) -> (r: Run)
    ensures
        r.head == head,
        r.kind == (if land {
            RunKind::Land(merge_base)
        } else {
            RunKind::Diff(merge_base)
        }),
{
    let kind = if land {
        RunKind::Land(merge_base)
    } else {
        RunKind::Diff(merge_base)
    };
    Run { head, kind }
}

/// What the run context needs from the workflow's variables.
#[derive(Debug, Clone, PartialEq, Eq)]
pub struct WorkflowVars {
    pub repo_source_id: String,
    pub head_sha: String,
    pub event_name: String,
    pub base_ref: String,
    pub event_path: String,
    pub ref_name: String,
    pub ref_type: String,
}

/// The value of `key`, or the empty text when it is unset.
pub open spec fn env_or_empty(vars: Seq<(String, String)>, key: Seq<char>) -> Seq<char> {
    match crate::environments::env_lookup(vars, key) {
        Some(v) => v,
        None => seq![],
    }
}

fn get_or_empty(env: &EnvVars, key: &str) -> (r: String)
    ensures
        r@ == env_or_empty(env.vars@, key@),
{
    match env.get(key) {
        Some(v) => v,
        None => String::new(),
    }
}

/// Reads the workflow's variables: the repository id and head sha must be
/// set and non-empty (else the message of the skipped upload); the event
/// name, base ref, event path, ref name and ref type default to empty.
pub fn workflow_vars(env: &EnvVars) -> (r: Result<WorkflowVars, String>)
    ensures
        match r {
            Ok(w) => env_non_empty(env.vars@, "GITHUB_REPOSITORY_ID"@) == Some(w.repo_source_id@)
                && env_non_empty(env.vars@, "GITHUB_SHA"@) == Some(w.head_sha@) && w.event_name@
                == env_or_empty(env.vars@, "GITHUB_EVENT_NAME"@) && w.base_ref@ == env_or_empty(
                env.vars@,
                "GITHUB_BASE_REF"@,
            ) && w.event_path@ == env_or_empty(env.vars@, "GITHUB_EVENT_PATH"@) && w.ref_name@
                == env_or_empty(env.vars@, "GITHUB_REF_NAME"@) && w.ref_type@ == env_or_empty(
                env.vars@,
                "GITHUB_REF_TYPE"@,
            ),
            Err(m) => if env_non_empty(env.vars@, "GITHUB_REPOSITORY_ID"@) is None {
                m@ == "GITHUB_REPOSITORY_ID is not set"@
            } else {
                env_non_empty(env.vars@, "GITHUB_SHA"@) is None && m@ == "GITHUB_SHA is not set"@
            },
        },
{
    let repo_source_id = match env.non_empty("GITHUB_REPOSITORY_ID") {
        Some(v) => v,
        None => return Err(owned("GITHUB_REPOSITORY_ID is not set")),
    };
    let head_sha = match env.non_empty("GITHUB_SHA") {
        Some(v) => v,
        None => return Err(owned("GITHUB_SHA is not set")),
    };
    Ok(
        WorkflowVars {
            repo_source_id,
            head_sha,
            event_name: get_or_empty(env, "GITHUB_EVENT_NAME"),
            base_ref: get_or_empty(env, "GITHUB_BASE_REF"),
            event_path: get_or_empty(env, "GITHUB_EVENT_PATH"),
            ref_name: get_or_empty(env, "GITHUB_REF_NAME"),
            ref_type: get_or_empty(env, "GITHUB_REF_TYPE"),
        },
    )
}

/// The repository id a GitHub run is uploaded under.
pub fn github_repo_id(repo_source_id: &str) -> (r: String)
    ensures
        r@ == "github:"@ + repo_source_id@,
{
    concat("github:", repo_source_id)
}

// ---------------------------------------------------------------------------
// Authentication
// ---------------------------------------------------------------------------

/// A token supplied in `TQ_AUTH_TOKEN`, which takes the place of any handshake.
pub fn preset_auth_token(env: &EnvVars) -> (r: Option<String>)
    ensures
        match r {
            Some(t) => env_non_empty(env.vars@, "TQ_AUTH_TOKEN"@) == Some(t@),
            None => env_non_empty(env.vars@, "TQ_AUTH_TOKEN"@) is None,
        },
{
    env.non_empty("TQ_AUTH_TOKEN")
}

/// The `Authorization` header value for a bearer token.
pub fn bearer_value(token: &str) -> (r: String)
    ensures
        r@ == "Bearer "@ + token@,
{
    concat("Bearer ", token)
}

/// A variable the handshake needs is unset or empty, or does not parse.
#[derive(Debug, Clone, PartialEq, Eq)]
pub enum HandshakeError {
    Missing { name: String },
    BadRunId,
    BadRunAttempt,
}

impl HandshakeError {
    pub open spec fn spec_message(self) -> Seq<char> {
        match self {
            HandshakeError::Missing { name } => "missing "@ + name@,
            HandshakeError::BadRunId => "GITHUB_RUN_ID is not a valid integer"@,
            HandshakeError::BadRunAttempt => "GITHUB_RUN_ATTEMPT is not a valid integer"@,
        }
    }

    pub fn message(&self) -> (r: String)
        ensures
            r@ == self.spec_message(),
    {
        match self {
            HandshakeError::Missing { name } => concat("missing ", name.as_str()),
            HandshakeError::BadRunId => owned("GITHUB_RUN_ID is not a valid integer"),
            HandshakeError::BadRunAttempt => owned("GITHUB_RUN_ATTEMPT is not a valid integer"),
        }
    }
}

/// The value of `name`; an error naming it when it is unset or empty.
pub fn require_env(env: &EnvVars, name: &str) -> (r: Result<String, HandshakeError>)
    ensures
        match r {
            Ok(v) => env_non_empty(env.vars@, name@) == Some(v@),
            Err(e) => env_non_empty(env.vars@, name@) is None && e is Missing && e->Missing_name@
                == name@,
        },
{
    match env.non_empty(name) {
        Some(v) => Ok(v),
        None => Err(HandshakeError::Missing { name: owned(name) }),
    }
}

/// `i32::from_str`: what `i64::from_str` accepts, within the `i32` range.
pub open spec fn parse_i32(s: Seq<char>) -> Option<i32> {
    match parse_i64(s) {
        Some(v) => if i32::MIN <= v <= i32::MAX {
            Some(v as i32)
        } else {
            None
        },
        None => None,
    }
}

/// What the handshake reads from the workflow's variables.
#[derive(Debug, Clone, PartialEq, Eq)]
pub struct HandshakeInputs {
    pub repository: String,
    pub workflow_run_id: i64,
    pub run_attempt: i32,
    pub runtime_token: String,
    pub results_url: String,
}

/// The handshake's variables are read and parsed in this order; each of these
/// holds when every check up to and including its own passes.
pub open spec fn has_repository(v: Seq<(String, String)>) -> bool {
    env_non_empty(v, "GITHUB_REPOSITORY"@) is Some
}

pub open spec fn has_run_id(v: Seq<(String, String)>) -> bool {
    has_repository(v) && env_non_empty(v, "GITHUB_RUN_ID"@) is Some
}

pub open spec fn run_id_parses(v: Seq<(String, String)>) -> bool {
    has_run_id(v) && parse_i64(env_non_empty(v, "GITHUB_RUN_ID"@)->0) is Some
}

pub open spec fn has_run_attempt(v: Seq<(String, String)>) -> bool {
    run_id_parses(v) && env_non_empty(v, "GITHUB_RUN_ATTEMPT"@) is Some
}

pub open spec fn run_attempt_parses(v: Seq<(String, String)>) -> bool {
    has_run_attempt(v) && parse_i32(env_non_empty(v, "GITHUB_RUN_ATTEMPT"@)->0) is Some
}

pub open spec fn has_runtime_token(v: Seq<(String, String)>) -> bool {
    run_attempt_parses(v) && env_non_empty(v, "ACTIONS_RUNTIME_TOKEN"@) is Some
}

pub open spec fn has_results_url(v: Seq<(String, String)>) -> bool {
    has_runtime_token(v) && env_non_empty(v, "ACTIONS_RESULTS_URL"@) is Some
}

/// Whether `r` is the error that names `name` as missing.
pub open spec fn missing_named(r: Result<HandshakeInputs, HandshakeError>, name: Seq<char>) -> bool {
    r matches Err(HandshakeError::Missing { name: n }) && n@ == name
}

/// Reads the handshake's inputs: the repository, the run id (an `i64`), the
/// run attempt (an `i32`), the runtime token and the results URL, each
/// required, in that order, failing on the first that is missing or does
/// not parse.
pub fn handshake_inputs(env: &EnvVars) -> (r: Result<HandshakeInputs, HandshakeError>)
    ensures
        r is Ok <==> has_results_url(env.vars@),
        match r {
            Ok(h) => env_non_empty(env.vars@, "GITHUB_REPOSITORY"@) == Some(h.repository@)
                && parse_i64(env_non_empty(env.vars@, "GITHUB_RUN_ID"@)->0) == Some(
                h.workflow_run_id,
            ) && parse_i32(env_non_empty(env.vars@, "GITHUB_RUN_ATTEMPT"@)->0) == Some(
                h.run_attempt,
            ) && env_non_empty(env.vars@, "ACTIONS_RUNTIME_TOKEN"@) == Some(h.runtime_token@)
                && env_non_empty(env.vars@, "ACTIONS_RESULTS_URL"@) == Some(h.results_url@),
            _ => true,
        },
        !has_repository(env.vars@) ==> missing_named(r, "GITHUB_REPOSITORY"@),
        has_repository(env.vars@) && !has_run_id(env.vars@) ==> missing_named(r, "GITHUB_RUN_ID"@),
        has_run_id(env.vars@) && !run_id_parses(env.vars@) ==> r matches Err(HandshakeError::BadRunId),
        run_id_parses(env.vars@) && !has_run_attempt(env.vars@) ==> missing_named(
            r,
            "GITHUB_RUN_ATTEMPT"@,
        ),
        has_run_attempt(env.vars@) && !run_attempt_parses(env.vars@) ==> r matches Err(
            HandshakeError::BadRunAttempt,
        ),
        run_attempt_parses(env.vars@) && !has_runtime_token(env.vars@) ==> missing_named(
            r,
            "ACTIONS_RUNTIME_TOKEN"@,
        ),
        has_runtime_token(env.vars@) && !has_results_url(env.vars@) ==> missing_named(
            r,
            "ACTIONS_RESULTS_URL"@,
        ),
{
    let repository = require_env(env, "GITHUB_REPOSITORY")?;
    let run_id_text = require_env(env, "GITHUB_RUN_ID")?;
    let c = chars_of(run_id_text.as_str());
    let workflow_run_id = match parse_i64_chars(c.as_slice()) {
        Some(v) => v,
        None => return Err(HandshakeError::BadRunId),
    };
    let attempt_text = require_env(env, "GITHUB_RUN_ATTEMPT")?;
    let c2 = chars_of(attempt_text.as_str());
    let run_attempt: i32 = match parse_i64_chars(c2.as_slice()) {
        Some(v) => {
            if -0x8000_0000i64 <= v && v <= 0x7fff_ffffi64 {
                v as i32
            } else {
                return Err(HandshakeError::BadRunAttempt);
            }
        },
        None => return Err(HandshakeError::BadRunAttempt),
    };
    let runtime_token = require_env(env, "ACTIONS_RUNTIME_TOKEN")?;
    let results_url = require_env(env, "ACTIONS_RESULTS_URL")?;
    Ok(HandshakeInputs { repository, workflow_run_id, run_attempt, runtime_token, results_url })
}

/// The domain separator prepended to the challenge before signing.
pub open spec fn exchange_prefix() -> Seq<u8> {
    "testquorum-exchange-v1:".spec_bytes()
}

/// The bytes the workflow signs: the domain separator, then the challenge.
pub fn signing_payload(challenge: &str) -> (r: Vec<u8>)
    ensures
        r@ == exchange_prefix() + challenge.spec_bytes(),
{
    let prefix = "testquorum-exchange-v1:".as_bytes();
    let mut out: Vec<u8> = Vec::new();
    append_bytes(&mut out, prefix);
    append_bytes(&mut out, challenge.as_bytes());
    assert(out@ =~= exchange_prefix() + challenge.spec_bytes());
    out
}

fn append_bytes(out: &mut Vec<u8>, b: &[u8])
    ensures
        final(out)@ == old(out)@ + b@,
{
    let n = b.len();
    for i in 0..n
        invariant
            n == b@.len(),
            out@ == old(out)@ + b@.take(i as int),
    {
        out.push(b[i]);
        assert(old(out)@ + b@.take(i + 1) =~= old(out)@ + b@.take(i as int) + seq![b@[i as int]]);
    }
    assert(b@.take(n as int) =~= b@);
}

/// The Ed25519 public key of the signing key with secret `seed`.
pub uninterp spec fn ed25519_public_key(seed: Seq<u8>) -> Seq<u8>;

/// The Ed25519 signature of `msg` by the signing key with secret `seed`.
pub uninterp spec fn ed25519_signature(seed: Seq<u8>, msg: Seq<u8>) -> Seq<u8>;

/// 32 random bytes from `rand::random`, the secret of a fresh signing key.
/// Nothing is stated of their value.
#[verifier::external_body]
fn fresh_signing_seed() -> (r: Vec<u8>)
    ensures
        r@.len() == 32,
{
    rand::random::<[u8; 32]>().to_vec()
}

/// `SigningKey::from_bytes(seed).verifying_key().to_bytes()`. Its result is
/// named by `ed25519_public_key`; it is 32 bytes long.
#[verifier::external_body]
fn public_key_bytes(seed: &[u8]) -> (r: Vec<u8>)
    requires
        seed@.len() == 32,
    ensures
        r@ == ed25519_public_key(seed@),
        r@.len() == 32,
{
    let secret: [u8; 32] = seed.try_into().unwrap();
    ed25519_dalek::SigningKey::from_bytes(&secret).verifying_key().to_bytes().to_vec()
}

/// `SigningKey::from_bytes(seed).sign(msg).to_bytes()`. Its result is named
/// by `ed25519_signature`; it is 64 bytes long.
#[verifier::external_body]
fn signature_bytes(seed: &[u8], msg: &[u8]) -> (r: Vec<u8>)
    requires
        seed@.len() == 32,
    ensures
        r@ == ed25519_signature(seed@, msg@),
        r@.len() == 64,
{
    let secret: [u8; 32] = seed.try_into().unwrap();
    ed25519_dalek::Signer::sign(&ed25519_dalek::SigningKey::from_bytes(&secret), msg).to_bytes().to_vec()
}

/// The public key the handshake registers: the verifying key of `seed`, base64url without padding.
pub fn public_key_b64(seed: &[u8]) -> (r: String)
    requires
        seed@.len() == 32,
    ensures
        r@ == base64url_encoded(ed25519_public_key(seed@)),
        r@.len() == 43,
{
    let key = public_key_bytes(seed);
    encode_base64url(key.as_slice())
}

/// A fresh handshake key: a random 32-byte secret and the public key that
/// `/github/auth/initiate` registers for it.
pub fn new_handshake_key() -> (r: (Vec<u8>, String))
    ensures
        r.0@.len() == 32,
        r.1@ == base64url_encoded(ed25519_public_key(r.0@)),
{
    let seed = fresh_signing_seed();
    let public_key = public_key_b64(seed.as_slice());
    (seed, public_key)
}

/// The signature the exchange presents: `seed`'s signature of the domain
/// separator followed by the challenge, base64url without padding.
pub fn sign_challenge(seed: &[u8], challenge: &str) -> (r: String)
    requires
        seed@.len() == 32,
    ensures
        r@ == base64url_encoded(ed25519_signature(seed@, exchange_prefix() + challenge.spec_bytes())),
        r@.len() == 86,
{
    let payload = signing_payload(challenge);
    let sig = signature_bytes(seed, payload.as_slice());
    encode_base64url(sig.as_slice())
}

/// The wait before retry `attempt` (counted from 0) of an exchange the
/// backend answered with 409: 1, 2 and 4 seconds, then no more retries.
pub open spec fn exchange_retry_delay_secs(attempt: nat) -> Option<u64> {
    if attempt == 0 {
        Some(1)
    } else if attempt == 1 {
        Some(2)
    } else if attempt == 2 {
        Some(4)
    } else {
        None
    }
}

/// Whether a failed exchange is retried, and after how many seconds: only a
/// 409 (the challenge artifact is not yet visible), and only three times.
pub fn exchange_retry_delay(attempt: usize, conflict: bool) -> (r: Option<u64>)
    ensures
        r == (if conflict {
            exchange_retry_delay_secs(attempt as nat)
        } else {
            None
        }),
        !conflict ==> r is None,
        conflict && attempt < 3 ==> r is Some,
        attempt >= 3 ==> r is None,
        conflict && attempt == 0 ==> r == Some(1u64),
        conflict && 0 < attempt < 3 ==> r is Some && exchange_retry_delay_secs((attempt - 1) as nat) is Some
            && r->0 == 2 * exchange_retry_delay_secs((attempt - 1) as nat)->0,
{
    if !conflict {
        None
    } else if attempt == 0 {
        Some(1)
    } else if attempt == 1 {
        Some(2)
    } else if attempt == 2 {
        Some(4)
    } else {
        None
    }
}

/// The total wait of the first `n` retries.
pub open spec fn exchange_wait_total(n: nat) -> nat
    decreases n,
{
    if n == 0 {
        0
    } else {
        exchange_wait_total((n - 1) as nat) + match exchange_retry_delay_secs((n - 1) as nat) {
            Some(d) => d as nat,
            None => 0,
        }
    }
}

/// An exchange is retried at most three times, and the retries wait seven
/// seconds in all, however many conflicts the backend reports.
pub proof fn lemma_exchange_retries_bounded(attempt: nat)
    ensures
        attempt >= 3 <==> exchange_retry_delay_secs(attempt) is None,
        exchange_wait_total(attempt) <= 7,
        attempt >= 3 ==> exchange_wait_total(attempt) == 7,
        exchange_wait_total(attempt) == (if attempt == 0 {
            0nat
        } else if attempt == 1 {
            1
        } else if attempt == 2 {
            3
        } else {
            7
        }),
    decreases attempt,
{
    if attempt > 0 {
        lemma_exchange_retries_bounded((attempt - 1) as nat);
    }
}

} // verus!
