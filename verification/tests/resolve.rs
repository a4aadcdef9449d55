use cmakr::config::{Config, Target, Targets};
use cmakr::error::Error;
use cmakr::resolve::{resolve, resolve_binary};

fn debug_target() -> Target {
    Target {
        args: vec!["-DCMAKE_BUILD_TYPE=Debug".to_string()],
        build_command: "make".to_string(),
    }
}

fn config_with(default_target: &str, default_bin: &str) -> Config {
    let mut targets = Targets::new();
    targets.insert("debug".to_string(), debug_target());
    targets.insert(
        "release".to_string(),
        Target {
            args: vec!["-DCMAKE_BUILD_TYPE=Release".to_string(), "-GNinja".to_string()],
            build_command: "ninja".to_string(),
        },
    );
    Config {
        targets,
        build_path: "build".to_string(),
        default_bin: default_bin.to_string(),
        default_target: default_target.to_string(),
    }
}

#[test]
fn resolving_a_declared_name_gives_its_target() {
    let config = config_with("", "");
    let (target, name) = resolve(&config, Some("debug")).unwrap();
    assert_eq!(name, "debug");
    assert_eq!(target, &debug_target());
    let (target, name) = resolve(&config, Some("release")).unwrap();
    assert_eq!(name, "release");
    assert_eq!(
        target.args,
        vec!["-DCMAKE_BUILD_TYPE=Release".to_string(), "-GNinja".to_string()]
    );
    assert_eq!(target.build_command, "ninja");
}

#[test]
fn resolving_an_undeclared_name_fails() {
    let config = config_with("debug", "");
    assert_eq!(
        resolve(&config, Some("profile")).unwrap_err(),
        Error::UnknownTarget("profile".to_string())
    );
    assert_eq!(resolve(&config, Some("")).unwrap_err(), Error::UnknownTarget(String::new()));
}

#[test]
fn scenario_undeclared_release_is_unknown() {
    let mut targets = Targets::new();
    targets.insert("debug".to_string(), debug_target());
    let config = Config {
        targets,
        build_path: "build".to_string(),
        default_bin: String::new(),
        default_target: String::new(),
    };
    assert_eq!(
        resolve(&config, Some("release")).unwrap_err(),
        Error::UnknownTarget("release".to_string())
    );
}

#[test]
fn no_request_and_no_default_is_no_target() {
    let config = config_with("", "");
    assert_eq!(resolve(&config, None).unwrap_err(), Error::NoTargetSpecified);
}

#[test]
fn no_request_falls_back_to_the_default_target() {
    let config = config_with("release", "");
    let (target, name) = resolve(&config, None).unwrap();
    assert_eq!(name, "release");
    assert_eq!(target.build_command, "ninja");
}

#[test]
fn an_undeclared_default_target_is_unknown() {
    let config = config_with("profile", "");
    assert_eq!(
        resolve(&config, None).unwrap_err(),
        Error::UnknownTarget("profile".to_string())
    );
}

#[test]
fn a_request_wins_over_the_default_target() {
    let config = config_with("release", "");
    let (_, name) = resolve(&config, Some("debug")).unwrap();
    assert_eq!(name, "debug");
}

#[test]
fn binary_is_the_requested_one() {
    let config = config_with("", "tool");
    assert_eq!(resolve_binary(&config, Some("app")).unwrap(), "app");
}

#[test]
fn binary_falls_back_to_the_default() {
    let config = config_with("", "tool");
    assert_eq!(resolve_binary(&config, None).unwrap(), "tool");
}

#[test]
fn no_binary_and_no_default_is_no_binary() {
    let config = config_with("debug", "");
    assert_eq!(resolve_binary(&config, None).unwrap_err(), Error::NoBinarySpecified);
}
