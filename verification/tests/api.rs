use std::time::{Duration, UNIX_EPOCH};

use testquorum::api::{EpochSecs, TestManager, WellKnownTestManager};

#[test]
fn epoch_secs_from_system_time_after_epoch() {
    let t = UNIX_EPOCH + Duration::from_secs(1_234_567_890);
    assert_eq!(EpochSecs::from(t).0, 1_234_567_890);
}

#[test]
fn epoch_secs_from_system_time_before_epoch_clamps_to_zero() {
    let t = UNIX_EPOCH - Duration::from_secs(10);
    assert_eq!(EpochSecs::from(t).0, 0);
}

#[test]
fn custom_rejects_empty_name() {
    assert!(TestManager::custom("").is_err());
}

#[test]
fn custom_cargo_is_distinct_from_well_known_cargo() {
    let custom = TestManager::custom("cargo").unwrap();
    let well_known: TestManager = WellKnownTestManager::Cargo.into();
    assert_ne!(custom, well_known);
    assert_eq!(custom.to_string(), "custom:cargo");
    assert_eq!(well_known.to_string(), "cargo");
}

#[test]
fn display_matches_wire_form() {
    let well_known: TestManager = WellKnownTestManager::Treefmt.into();
    assert_eq!(well_known.to_string(), "treefmt");
    assert_eq!(TestManager::custom("npm").unwrap().to_string(), "custom:npm");
}

#[test]
fn epoch_secs_from_whole_seconds() {
    assert_eq!(EpochSecs::from_unix_secs(Some(42)).0, 42);
    assert_eq!(EpochSecs::from_unix_secs(None).0, 0);
    let t = UNIX_EPOCH + Duration::from_millis(1_999);
    assert_eq!(EpochSecs::from(t).0, 1);
}

#[test]
fn custom_error_carries_the_wire_form() {
    let e = TestManager::custom("").unwrap_err();
    assert_eq!(e.value, "custom:");
    assert_eq!(TestManager::well_known(WellKnownTestManager::Nix).to_string(), "nix");
}
