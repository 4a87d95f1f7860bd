use testquorum::config::{
    check_config, config_paths, default_attrset, default_config, default_managers, default_true,
    find_config_file, validate_attrset, AttrsetError, CargoConfig, Config, Managers, NixConfig, TreefmtConfig,
};

#[test]
fn validate_attrset_accepts_common_names() {
    assert!(validate_attrset("checks").is_ok());
    assert!(validate_attrset("ci").is_ok());
    assert!(validate_attrset("_my-checks").is_ok());
    assert!(validate_attrset("foo_bar-baz123").is_ok());
}

#[test]
fn validate_attrset_rejects_empty() {
    assert!(validate_attrset("").is_err());
}

#[test]
fn validate_attrset_rejects_leading_digit() {
    assert!(validate_attrset("1checks").is_err());
}

#[test]
fn validate_attrset_rejects_metacharacters() {
    assert!(validate_attrset("checks\"; abort \"x").is_err());
    assert!(validate_attrset("checks.x86_64-linux").is_err());
    assert!(validate_attrset("checks ").is_err());
    assert!(validate_attrset("..").is_err());
    assert!(validate_attrset("a/b").is_err());
}

#[test]
fn config_paths_cover_documented_locations() {
    let paths = config_paths();
    assert!(paths.contains(&".github/testquorum.toml".to_string()));
    assert!(paths.contains(&".testquorum.toml".to_string()));
    assert!(paths.contains(&"testquorum.toml".to_string()));
}

#[test]
fn attrset_errors_say_why() {
    assert_eq!(validate_attrset("").unwrap_err().message(), "attrset is empty");
    assert_eq!(
        validate_attrset("1x").unwrap_err().message(),
        "attrset must start with an ASCII letter or underscore (got \"1x\")"
    );
    let e = validate_attrset("a\"b").unwrap_err();
    assert_eq!(e, AttrsetError::BadChar { value: "a\"b".to_string() });
    assert_eq!(e.message(), "attrset must contain only ASCII alphanumerics, '_' or '-' (got \"a\\\"b\")");
}

#[test]
fn config_file_is_the_first_that_exists() {
    assert_eq!(find_config_file(&[false, true, true]).as_deref(), Some(".testquorum.toml"));
    assert_eq!(find_config_file(&[true, true, true]).as_deref(), Some(".github/testquorum.toml"));
    assert_eq!(find_config_file(&[false, false, false]), None);
}

#[test]
fn defaults_autodetect_everything() {
    assert!(default_true());
    assert_eq!(default_attrset(), "checks");
    let m = default_managers();
    assert!(m.autodetect && m.nix.is_none() && m.cargo.is_none() && m.treefmt.is_none());
    assert_eq!(default_config(), Config { managers: m });
}

#[test]
fn loaded_config_checks_the_attrset() {
    let mut c = Config {
        managers: Managers {
            autodetect: true,
            nix: Some(NixConfig { enabled: true, attrset: "bad attr".to_string() }),
            cargo: Some(CargoConfig { enabled: false }),
            treefmt: Some(TreefmtConfig { enabled: None }),
        },
    };
    assert!(check_config(&c).is_err());
    c.managers.nix = None;
    assert!(check_config(&c).is_ok());
}
