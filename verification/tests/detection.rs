use testquorum::managers::{
    buck2, cargo, cmake, composer, dart, dotnet, elixir, go, kotlin, maven, nix, npm, ocaml, pytest, rspec, sbt,
    ToolOutput,
};

fn out(stdout: &str) -> Option<ToolOutput> {
    Some(ToolOutput { stdout: stdout.to_string(), stderr: String::new() })
}

fn err_out(stderr: &str) -> Option<ToolOutput> {
    Some(ToolOutput { stdout: String::new(), stderr: stderr.to_string() })
}

#[test]
fn go_detection_reports_each_failure() {
    let e = go::detect_go(None, None, true).unwrap_err();
    assert_eq!(e.message(), "go not found on PATH");
    let e = go::detect_go(out("go version go1.20.14 linux/amd64\n"), None, true).unwrap_err();
    assert_eq!(e, go::GoError::TooOld { minimum: "1.21".to_string(), found: "1.20".to_string() });
    assert_eq!(e.message(), "go version 1.20 is too old (minimum 1.21)");
    let e = go::detect_go(out("  garbage  \n"), None, true).unwrap_err();
    assert_eq!(e.message(), "go version garbage is too old (minimum 1.21)");
    let e = go::detect_go(out("go version go1.22.3 darwin/arm64"), Some("svc/go.mod"), false).unwrap_err();
    assert_eq!(e.message(), "go.mod not found at svc/go.mod");
    assert_eq!(go::detect_go(out("go version go1.22.3 darwin/arm64"), None, true).unwrap(), "go.mod");
}

#[test]
fn cargo_detection_trusts_a_configured_manifest() {
    let v = out("cargo 1.84.0 (66221abde 2024-11-19)");
    assert_eq!(cargo::detect_cargo(v.clone(), Some("sub/Cargo.toml"), false).unwrap(), "sub/Cargo.toml");
    let e = cargo::detect_cargo(v.clone(), None, false).unwrap_err();
    assert_eq!(e.message(), "cargo manifest not found at Cargo.toml");
    let e = cargo::detect_cargo(out("cargo 1.69.0"), None, true).unwrap_err();
    assert_eq!(e.message(), "cargo version 1.69 is too old (minimum 1.70)");
}

#[test]
fn nix_detection_gates_on_2_4() {
    assert!(nix::detect_nix(out("nix (Nix) 2.4")).is_ok());
    let e = nix::detect_nix(out("nix (Nix) 2.3.16")).unwrap_err();
    assert_eq!(e.message(), "nix version 2.3 is too old (minimum 2.4)");
    assert_eq!(nix::detect_nix(None).unwrap_err().message(), "nix not found on PATH");
}

#[test]
fn npm_detection_checks_tools_version_and_test_script() {
    let v = out("v20.1.0\n");
    assert_eq!(npm::detect_npm(false, true, v.clone(), None, true, None).unwrap_err().message(), "node not found on PATH");
    assert_eq!(npm::detect_npm(true, false, v.clone(), None, true, None).unwrap_err().message(), "npm not found on PATH");
    assert_eq!(
        npm::detect_npm(true, true, out("v16.0.0"), None, true, None).unwrap_err().message(),
        "node version 16 is too old (minimum 18)"
    );
    assert_eq!(
        npm::detect_npm(true, true, v.clone(), None, false, None).unwrap_err().message(),
        "package.json not found at package.json"
    );
    assert_eq!(
        npm::detect_npm(true, true, v.clone(), None, true, Some("{ not json".to_string())).unwrap_err(),
        npm::NpmError::NoTestScript
    );
    assert_eq!(
        npm::detect_npm(true, true, v.clone(), None, true, Some(r#"{"scripts":{"build":"tsc"}}"#.to_string())).unwrap_err(),
        npm::NpmError::NoTestScript
    );
    assert_eq!(
        npm::detect_npm(true, true, v, Some("web/package.json"), true, Some(r#"{"scripts":{"test":"jest"}}"#.to_string())).unwrap(),
        "web/package.json"
    );
}

#[test]
fn maven_detection_reads_java_from_stderr() {
    let java17 = err_out("openjdk version \"17.0.2\" 2022-01-18\n");
    assert_eq!(maven::detect_maven(true, true, java17.clone(), None, true).unwrap(), "pom.xml");
    assert_eq!(maven::detect_maven(true, false, java17.clone(), None, true).unwrap_err().message(), "mvn not found on PATH");
    assert_eq!(
        maven::detect_maven(true, true, err_out("java version \"1.8.0_392\""), None, true).unwrap_err().message(),
        "java version 8 is too old (minimum 17)"
    );
    assert_eq!(maven::detect_maven(true, true, java17, None, false).unwrap_err().message(), "pom.xml not found at pom.xml");
}

#[test]
fn kotlin_detection_prefers_kts_then_groovy_build() {
    let java = err_out("openjdk version \"21.0.1\" 2023-10-17\n");
    assert_eq!(kotlin::detect_kotlin(java.clone(), true, None, &[false, true]).unwrap(), "build.gradle");
    assert_eq!(kotlin::detect_kotlin(java.clone(), true, None, &[true, true]).unwrap(), "build.gradle.kts");
    assert_eq!(
        kotlin::detect_kotlin(java.clone(), true, None, &[false, false]).unwrap_err().message(),
        "build.gradle.kts (or build.gradle) not found at build.gradle.kts"
    );
    assert_eq!(kotlin::detect_kotlin(java.clone(), false, None, &[true, true]).unwrap_err(), kotlin::KotlinError::GradlewNotFound);
    assert_eq!(
        kotlin::detect_kotlin(err_out("java version \"1.8.0_392\"\nJava(TM) SE"), true, None, &[true, true]).unwrap_err().message(),
        "java version 8 is too old (minimum 11)"
    );
    assert_eq!(
        kotlin::detect_kotlin(err_out("  weird output\nmore"), true, None, &[true, true]).unwrap_err().message(),
        "java version weird output is too old (minimum 11)"
    );
}

#[test]
fn pytest_detection_walks_the_candidates() {
    let py = out("Python 3.12.1\n");
    assert_eq!(pytest::detect_pytest(py.clone(), true, None, &[false, false, true]).unwrap(), "setup.cfg");
    assert_eq!(
        pytest::detect_pytest(py.clone(), true, None, &[false, false, false]).unwrap_err().message(),
        "no Python project config found at pyproject.toml / setup.py / setup.cfg"
    );
    assert_eq!(pytest::detect_pytest(py.clone(), false, None, &[true, true, true]).unwrap_err(), pytest::PytestError::PytestNotFound);
    let old_on_stderr = Some(ToolOutput { stdout: "  \n".to_string(), stderr: "Python 3.7.9\n".to_string() });
    assert_eq!(
        pytest::detect_pytest(old_on_stderr, true, None, &[true, true, true]).unwrap_err().message(),
        "python3 version 3.7 is too old (minimum 3.8)"
    );
    assert_eq!(pytest::detect_pytest(py, true, Some("tox.ini"), &[true]).unwrap(), "tox.ini");
}

#[test]
fn dotnet_detection_finds_a_project_in_the_listing() {
    let v = out("8.0.100\n");
    let entries = vec!["README.md".to_string(), "App.csproj".to_string(), "All.sln".to_string()];
    assert_eq!(dotnet::detect_dotnet(v.clone(), None, false, Some(entries)).unwrap(), "App.csproj");
    assert_eq!(dotnet::detect_dotnet(v.clone(), None, false, None).unwrap_err(), dotnet::DotnetError::ProjectNotFound);
    assert_eq!(
        dotnet::detect_dotnet(v.clone(), Some("x.sln"), false, None).unwrap_err().message(),
        "project file not found at x.sln"
    );
    assert_eq!(
        dotnet::detect_dotnet(out("5.0.1"), None, false, None).unwrap_err().message(),
        "dotnet version 5 is too old (minimum 6)"
    );
}

#[test]
fn rspec_and_composer_detection_order() {
    let ruby = out("ruby 3.2.0 (2022-12-25 revision a528908271) [arm64-darwin22]\n");
    assert_eq!(rspec::detect_rspec(ruby.clone(), false, None, true).unwrap_err(), rspec::RspecError::BundleNotFound);
    assert_eq!(rspec::detect_rspec(ruby, true, None, true).unwrap(), "Gemfile");
    let php = out("PHP 8.3.0 (cli)\nCopyright");
    assert_eq!(composer::detect_composer(php.clone(), false, None, true, None).unwrap_err(), composer::ComposerError::ComposerNotFound);
    assert_eq!(
        composer::detect_composer(out("PHP 7.4.33 (cli)\nx"), true, None, true, None).unwrap_err().message(),
        "php version 7.4 is too old (minimum 8.0)"
    );
    assert_eq!(
        composer::detect_composer(php, true, None, true, Some(r#"{"scripts":{"test":"phpunit"}}"#.to_string())).unwrap(),
        "composer.json"
    );
}

#[test]
fn buck2_detection_needs_the_tool_and_buckconfig() {
    assert_eq!(buck2::detect_buck2(false, None, true).unwrap_err().message(), "buck2 not found on PATH");
    assert_eq!(buck2::detect_buck2(true, None, false).unwrap_err().message(), ".buckconfig not found at .buckconfig");
    assert_eq!(buck2::detect_buck2(true, None, true).unwrap(), ".buckconfig");
}

#[test]
fn version_gated_file_detections() {
    let both = |o: &str, e: &str| Some(ToolOutput { stdout: o.to_string(), stderr: e.to_string() });
    assert_eq!(cmake::detect_cmake(both("cmake version 3.27.1\n", ""), None, true).unwrap(), "CMakeLists.txt");
    assert_eq!(
        cmake::detect_cmake(both("cmake version 3.10.2\n", ""), None, true).unwrap_err().message(),
        "cmake version 3.10 is too old (minimum 3.13)"
    );
    assert_eq!(
        cmake::detect_cmake(both("  weird\nsecond", ""), None, true).unwrap_err().message(),
        "cmake version weird is too old (minimum 3.13)"
    );
    assert_eq!(dart::detect_dart(both("", "Dart SDK version: 3.2.0 (stable)"), None, true).unwrap(), "pubspec.yaml");
    assert_eq!(
        dart::detect_dart(both("Dart SDK version: 2.19.6 (stable)", ""), Some("app/pubspec.yaml"), true).unwrap_err().message(),
        "dart version 2.19 is too old (minimum 3.0)"
    );
    assert_eq!(
        elixir::detect_elixir(both("Erlang/OTP 26\n\nElixir 1.15.7 (compiled)", ""), None, false).unwrap_err().message(),
        "mix.exs not found at mix.exs"
    );
    assert_eq!(
        elixir::detect_elixir(both("Erlang/OTP 26\n\nsomething else\n", ""), None, true).unwrap_err().message(),
        "Elixir version something else is too old (minimum 1.14)"
    );
    assert_eq!(ocaml::detect_ocaml(both("2.1.5\n", ""), None, true).unwrap(), "dune-project");
    assert_eq!(ocaml::detect_ocaml(None, None, true).unwrap_err().message(), "opam not found on PATH");
    assert_eq!(
        sbt::detect_sbt(both("0.13.18\n", ""), None, true).unwrap_err().message(),
        "sbt version 0.13 is too old (minimum 1.0)"
    );
}
