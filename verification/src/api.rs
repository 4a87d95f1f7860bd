//! The wire types shared with the TestQuorum API: manager identities, commits,
//! runs and epoch timestamps.

use vstd::prelude::*;

use crate::text::{chars_of, concat, owned};

verus! {

/// Managers the API knows by a bare name.
#[derive(Debug, Clone, Copy, PartialEq, Eq, Hash)]
pub enum WellKnownTestManager {
    Cargo,
    Nix,
    Treefmt,
}

impl WellKnownTestManager {
    /// The bare wire name of a built-in manager.
    pub open spec fn spec_wire_name(self) -> Seq<char> {
        match self {
            WellKnownTestManager::Cargo => "cargo"@,
            WellKnownTestManager::Nix => "nix"@,
            WellKnownTestManager::Treefmt => "treefmt"@,
        }
    }

    /// The bare wire name of a built-in manager.
    pub fn to_string(&self) -> (r: String)
        ensures
            r@ == self.spec_wire_name(),
    {
        match self {
            WellKnownTestManager::Cargo => owned("cargo"),
            WellKnownTestManager::Nix => owned("nix"),
            WellKnownTestManager::Treefmt => owned("treefmt"),
        }
    }
}

/// The wire form of an in-house manager: `custom:` followed by a non-empty name.
#[derive(Debug, Clone, PartialEq, Eq, Hash)]
pub struct CustomTestManager {
    wire: String,
}

impl CustomTestManager {
    pub closed spec fn view(&self) -> Seq<char> {
        self.wire@
    }

    /// A copy of this identity.
    pub fn copy(&self) -> (r: CustomTestManager)
        ensures
            r.view() == self.view(),
    {
        CustomTestManager { wire: owned(self.wire.as_str()) }
    }

    /// The wire form (`custom:<name>`).
    pub fn as_str(&self) -> (r: &str)
        ensures
            r@ == self.view(),
    {
        self.wire.as_str()
    }
}

/// A manager identity: a built-in one or a `custom:<name>` one.
#[derive(Debug, Clone, PartialEq, Eq, Hash)]
pub enum TestManager {
    WellKnownTestManager(WellKnownTestManager),
    CustomTestManager(CustomTestManager),
}

/// Why a string is not a valid manager identity.
#[derive(Debug, Clone, PartialEq, Eq)]
pub struct ConversionError {
    pub value: String,
}

/// The prefix of every in-house manager's wire form.
pub open spec fn custom_prefix() -> Seq<char> {
    "custom:"@
}

impl TestManager {
    /// The wire form of an identity (what `Display` prints and serde writes).
    pub open spec fn spec_wire(self) -> Seq<char> {
        match self {
            TestManager::WellKnownTestManager(m) => m.spec_wire_name(),
            TestManager::CustomTestManager(c) => c.view(),
        }
    }

    /// The identity of the in-house manager `name`, whose wire form is
    /// `custom:<name>`. Fails only when `name` is empty.
    pub fn custom(name: &str) -> (r: Result<TestManager, ConversionError>)
        ensures
            name@.len() > 0 <==> r is Ok,
            r matches Ok(m) ==> m is CustomTestManager && m.spec_wire() == custom_prefix() + name@,
            r matches Err(e) ==> e.value@ == custom_prefix() + name@,
    {
        let wire = concat("custom:", name);
        let n = chars_of(name);
        if n.len() == 0 {
            Err(ConversionError { value: wire })
        } else {
            Ok(TestManager::CustomTestManager(CustomTestManager { wire }))
        }
    }

    /// The identity of a built-in manager.
    pub fn well_known(m: WellKnownTestManager) -> (r: TestManager)
        ensures
            r == TestManager::WellKnownTestManager(m),
    {
        TestManager::WellKnownTestManager(m)
    }

    /// The wire form: the bare name of a built-in manager, or `custom:<name>`.
    pub fn to_string(&self) -> (r: String)
        ensures
            r@ == self.spec_wire(),
    {
        match self {
            TestManager::WellKnownTestManager(m) => m.to_string(),
            TestManager::CustomTestManager(c) => owned(c.as_str()),
        }
    }
}

/// An in-house manager's identity is never a built-in one, whatever its
/// name: its wire form starts with `custom:`, which no built-in name does.
pub proof fn lemma_custom_is_not_well_known(m: TestManager, w: WellKnownTestManager, name: Seq<char>)
    requires
        m is CustomTestManager,
        m.spec_wire() == custom_prefix() + name,
    ensures
        m != TestManager::WellKnownTestManager(w),
        m.spec_wire() != w.spec_wire_name(),
{
    reveal_strlit("custom:");
    reveal_strlit("cargo");
    reveal_strlit("nix");
    reveal_strlit("treefmt");
    assert(m.spec_wire()[1] == 'u');
    assert(m.spec_wire().len() >= 7);
}

/// Distinct names give distinct in-house identities.
pub proof fn lemma_custom_injective(a: TestManager, b: TestManager, x: Seq<char>, y: Seq<char>)
    requires
        a.spec_wire() == custom_prefix() + x,
        b.spec_wire() == custom_prefix() + y,
        x != y,
    ensures
        a.spec_wire() != b.spec_wire(),
{
    if a.spec_wire() == b.spec_wire() {
        assert(x =~= (custom_prefix() + x).skip(custom_prefix().len() as int));
        assert(y =~= (custom_prefix() + y).skip(custom_prefix().len() as int));
    }
}

impl From<WellKnownTestManager> for TestManager {
    fn from(m: WellKnownTestManager) -> (r: TestManager) {
        TestManager::WellKnownTestManager(m)
    }
}

impl vstd::std_specs::convert::FromSpecImpl<WellKnownTestManager> for TestManager {
    open spec fn obeys_from_spec() -> bool {
        true
    }

    open spec fn from_spec(m: WellKnownTestManager) -> TestManager {
        TestManager::WellKnownTestManager(m)
    }
}

/// A commit: its sha and its height (the number of commits reachable from it,
/// itself included).
#[derive(Debug, Clone, PartialEq, Eq)]
pub struct Commit {
    pub sha: String,
    pub height: i64,
}

/// What started a post-land check.
#[derive(Debug, Clone, Copy, PartialEq, Eq)]
pub enum Trigger {
    Push,
    Scheduled,
    Manual,
}

/// The kind of a run and the commit it is measured against.
#[derive(Debug, Clone, PartialEq, Eq)]
pub enum RunKind {
    Diff(Commit),
    Land(Commit),
    Merge(Commit),
    PostLand { branch: String, trigger: Trigger },
}

/// A run: the head commit and what kind of run it is.
#[derive(Debug, Clone, PartialEq, Eq)]
pub struct Run {
    pub head: Commit,
    pub kind: RunKind,
}

/// Seconds since the Unix epoch.
#[derive(Debug, Clone, Copy, PartialEq, Eq)]
pub struct EpochSecs(pub i64);

#[verifier::external_type_specification]
#[verifier::external_body]
pub struct ExSystemTime(std::time::SystemTime);

/// Whole seconds from the Unix epoch to the instant `t`, `None` when `t` is
/// before the epoch: what `t.duration_since(UNIX_EPOCH)` followed by
/// `Duration::as_secs` gives, a function of `t` alone.
pub uninterp spec fn unix_secs_of(t: std::time::SystemTime) -> Option<u64>;

/// `SystemTime::duration_since(UNIX_EPOCH)` then `Duration::as_secs`; its
/// result is named by `unix_secs_of`.
#[verifier::external_body]
fn secs_since_unix_epoch(t: std::time::SystemTime) -> (r: Option<u64>)
    ensures
        r == unix_secs_of(t),
{
    t.duration_since(std::time::UNIX_EPOCH).ok().map(|d| d.as_secs())
}

impl EpochSecs {
    /// The timestamp for a whole-second offset from the epoch; an instant
    /// before the epoch (`None`) clamps to 0. The offset is cast to `i64`.
    pub open spec fn spec_from_unix_secs(secs: Option<u64>) -> EpochSecs {
        match secs {
            Some(s) => EpochSecs(s as i64),
            None => EpochSecs(0),
        }
    }

    pub fn from_unix_secs(secs: Option<u64>) -> (r: EpochSecs)
        ensures
            r == Self::spec_from_unix_secs(secs),
    {
        match secs {
            Some(s) => EpochSecs(s as i64),
            None => EpochSecs(0),
        }
    }

    /// The timestamp of `t`: whole seconds since the epoch, 0 before it.
    pub fn from(t: std::time::SystemTime) -> (r: EpochSecs)
        ensures
            r == Self::spec_from_unix_secs(unix_secs_of(t)),
    {
        let secs = secs_since_unix_epoch(t);
        Self::from_unix_secs(secs)
    }
}

} // verus!
