use testquorum::managers::{cargo, cmake, composer, dart, dotnet, elixir, go, kotlin, maven, nix, npm, ocaml, pytest, r, rspec, sbt};

#[test]
fn parse_version_standard() {
    assert_eq!(cargo::parse_version("cargo 1.84.0 (66221abde 2024-11-19)"), Some((1, 84)));
    assert_eq!(dotnet::parse_major_version("8.0.100\n"), Some(8));
    assert_eq!(nix::parse_version("nix (Nix) 2.24.9"), Some((2, 24)));
}

#[test]
fn detect_parse_version_standard() {
    assert_eq!(npm::parse_version("v18.19.0\n"), Some(18));
    assert_eq!(pytest::parse_version("Python 3.11.2\n"), Some((3, 11)));
    assert_eq!(
        rspec::parse_version("ruby 3.2.0 (2022-12-25 revision a528908271) [arm64-darwin22]\n"),
        Some((3, 2))
    );
}

#[test]
fn parse_version_short() {
    assert_eq!(cargo::parse_version("cargo 1.70.0"), Some((1, 70)));
}

#[test]
fn detect_parse_version_short() {
    assert_eq!(nix::parse_version("nix (Nix) 2.4"), Some((2, 4)));
}

#[test]
fn parse_version_old() {
    assert_eq!(cargo::parse_version("cargo 1.69.0 (84c898d65 2023-04-11)"), Some((1, 69)));
    assert_eq!(cmake::parse_version("cmake version 3.10.2"), Some((3, 10)));
    assert_eq!(dart::parse_version("Dart SDK version: 2.19.6 (stable) ..."), Some((2, 19)));
    assert_eq!(dotnet::parse_major_version("3.1.32"), Some(3));
    assert_eq!(
        elixir::parse_version("Erlang/OTP 24\n\nElixir 1.12.3 (compiled with Erlang/OTP 24)"),
        Some((1, 12))
    );
    assert_eq!(go::parse_version("go version go1.20.14 linux/amd64"), Some((1, 20)));
    assert_eq!(nix::parse_version("nix (Nix) 2.3.16"), Some((2, 3)));
}

#[test]
fn detect_parse_version_old() {
    assert_eq!(npm::parse_version("v16.20.1"), Some(16));
    assert_eq!(ocaml::parse_version("1.2.2\n"), Some((1, 2)));
    assert_eq!(pytest::parse_version("Python 2.7.18"), Some((2, 7)));
    assert_eq!(
        r::parse_version("R scripting front-end version 3.6.3 (2020-02-29)"),
        Some((3, 6))
    );
    assert_eq!(rspec::parse_version("ruby 2.7.8p225 ..."), Some((2, 7)));
    assert_eq!(sbt::parse_version("0.13.18\n"), Some((0, 13)));
}

#[test]
fn parse_version_invalid() {
    assert_eq!(cargo::parse_version("not a version"), None);
    assert_eq!(cmake::parse_version("not a cmake version"), None);
    assert_eq!(dart::parse_version("not a version"), None);
    assert_eq!(dotnet::parse_major_version("not a version"), None);
    assert_eq!(elixir::parse_version("not a version"), None);
    assert_eq!(go::parse_version("not a version"), None);
    assert_eq!(kotlin::parse_version("not a version"), None);
    assert_eq!(maven::parse_version("not a version"), None);
}

#[test]
fn detect_parse_version_invalid() {
    assert_eq!(nix::parse_version("not a version"), None);
    assert_eq!(npm::parse_version("not a version"), None);
    assert_eq!(ocaml::parse_version("not a version"), None);
    assert_eq!(pytest::parse_version("not a version"), None);
    assert_eq!(r::parse_version("not a version"), None);
    assert_eq!(rspec::parse_version("not a version"), None);
    assert_eq!(sbt::parse_version("not a version"), None);
}

#[test]
fn parse_version_modern() {
    assert_eq!(
        cmake::parse_version(
            "cmake version 3.20.0\n\nCMake suite maintained and supported by Kitware (kitware.com/cmake)."
        ),
        Some((3, 20))
    );
    assert_eq!(
        dart::parse_version(
            "Dart SDK version: 3.1.0 (stable) (Tue Jul 25 21:39:02 2023 +0000) on \"macos_arm64\""
        ),
        Some((3, 1))
    );
    assert_eq!(
        elixir::parse_version("Erlang/OTP 26 [erts-14.1.1]\n\nElixir 1.15.7 (compiled with Erlang/OTP 26)"),
        Some((1, 15))
    );
}

#[test]
fn detect_parse_version_modern() {
    assert_eq!(ocaml::parse_version("2.1.5\n"), Some((2, 1)));
    assert_eq!(
        r::parse_version("R scripting front-end version 4.3.1 (2023-06-16)"),
        Some((4, 3))
    );
    assert_eq!(sbt::parse_version("1.9.6\n"), Some((1, 9)));
}

#[test]
fn parse_version_modern_21() {
    assert_eq!(kotlin::parse_version("openjdk version \"21.0.1\" 2023-10-17\n..."), Some(21));
}

#[test]
fn detect_parse_version_modern_21() {
    assert_eq!(maven::parse_version("openjdk version \"21.0.1\" 2023-10-17\n..."), Some(21));
}

#[test]
fn parse_version_legacy_8() {
    assert_eq!(kotlin::parse_version("java version \"1.8.0_392\"\n..."), Some(8));
}

#[test]
fn detect_parse_version_legacy_8() {
    assert_eq!(maven::parse_version("java version \"1.8.0_392\"\n..."), Some(8));
}

#[test]
fn parse_version_modern_11() {
    assert_eq!(kotlin::parse_version("openjdk version \"11.0.21\" 2023-10-17\n..."), Some(11));
}

#[test]
fn parse_version_modern_17() {
    assert_eq!(maven::parse_version("java version \"17.0.1\" 2021-10-19 LTS\n..."), Some(17));
}

#[test]
fn parse_version_linux_amd64() {
    assert_eq!(go::parse_version("go version go1.21.0 linux/amd64"), Some((1, 21)));
}

#[test]
fn parse_version_darwin_arm64() {
    assert_eq!(go::parse_version("go version go1.22.3 darwin/arm64"), Some((1, 22)));
}

#[test]
fn parse_version_no_trailing_newline() {
    assert_eq!(dotnet::parse_major_version("6.0.419"), Some(6));
}

#[test]
fn parse_version_major_only() {
    assert_eq!(npm::parse_version("v20"), Some(20));
}

#[test]
fn parse_version_minimum_boundary() {
    assert_eq!(pytest::parse_version("Python 3.8.0"), Some((3, 8)));
}

#[test]
fn parse_version_below_minimum() {
    let v = pytest::parse_version("Python 3.7.12").unwrap();
    assert!(v < (3, 8));
}

#[test]
fn parse_version_patch_suffix() {
    assert_eq!(rspec::parse_version("ruby 3.0.6p216 ..."), Some((3, 0)));
}

#[test]
fn parse_php_version_standard() {
    assert_eq!(
        composer::parse_php_version("PHP 8.3.0 (cli) (built: Jan  1 2024 00:00:00)\nCopyright ..."),
        Some((8, 3))
    );
}

#[test]
fn parse_php_version_older_minor() {
    assert_eq!(composer::parse_php_version("PHP 8.1.27 (cli) ..."), Some((8, 1)));
}

#[test]
fn parse_php_version_old_major() {
    assert_eq!(composer::parse_php_version("PHP 7.4.33 (cli) ..."), Some((7, 4)));
}

#[test]
fn parse_php_version_invalid() {
    assert_eq!(composer::parse_php_version("not a version"), None);
}

#[test]
fn npm_version_strips_every_leading_v() {
    assert_eq!(npm::parse_version("  vv21.1.0  "), Some(21));
}

#[test]
fn go_version_needs_exact_prefix() {
    assert_eq!(go::parse_version("  go version go1.23rc1 linux/amd64"), None);
    assert_eq!(go::parse_version("go version go1.23.1"), Some((1, 23)));
}

#[test]
fn version_numbers_accept_a_plus_sign_like_str_parse() {
    assert_eq!(sbt::parse_version("+1.+9.6"), Some((1, 9)));
    assert_eq!(sbt::parse_version("1.-9.6"), None);
}

#[test]
fn version_components_must_fit_u32() {
    assert_eq!(ocaml::parse_version("4294967295.1"), Some((4294967295, 1)));
    assert_eq!(ocaml::parse_version("4294967296.1"), None);
}

#[test]
fn too_old_versions_read_back() {
    let e = go::detect_go(
        Some(testquorum::managers::ToolOutput { stdout: "go version go1.20.14 linux/amd64".to_string(), stderr: String::new() }),
        None,
        true,
    )
    .unwrap_err();
    match e {
        go::GoError::TooOld { found, .. } => assert_eq!(ocaml::parse_version(&found), Some((1, 20))),
        other => panic!("unexpected {:?}", other),
    }
}
