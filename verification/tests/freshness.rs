use cargo_shipit::autobuild::{build_arguments, should_auto_build, ArtifactProbe, BuildProbe};
use cargo_shipit::Config;

fn present(modified: i128) -> ArtifactProbe {
    ArtifactProbe { exists: true, modified: Some(modified) }
}

fn missing() -> ArtifactProbe {
    ArtifactProbe { exists: false, modified: None }
}

fn words(list: &[&str]) -> Vec<String> {
    list.iter().map(|s| s.to_string()).collect()
}

fn sample_config(build: bool) -> Config {
    Config {
        host: "h".to_string(),
        port: 22,
        username: "u".to_string(),
        password: "p".to_string(),
        key: None,
        target_folder: "/p/target/".to_string(),
        target: "t".to_string(),
        remote_folder: "/r/".to_string(),
        debug: false,
        build,
        binaries: words(&["a", "b"]),
        profile: "release".to_string(),
    }
}

#[test]
fn newer_descriptor_calls_for_a_build() {
    let probe = BuildProbe {
        project_root: true,
        descriptor_modified: Some(200),
        artifacts: vec![present(100), present(150)],
    };
    assert!(should_auto_build(&probe));
}

#[test]
fn one_stale_binary_is_enough() {
    let probe = BuildProbe {
        project_root: true,
        descriptor_modified: Some(200),
        artifacts: vec![present(300), present(199)],
    };
    assert!(should_auto_build(&probe));
}

#[test]
fn fresh_binaries_need_no_build() {
    let probe = BuildProbe {
        project_root: true,
        descriptor_modified: Some(200),
        artifacts: vec![present(201), present(900)],
    };
    assert!(!should_auto_build(&probe));
}

#[test]
fn equal_times_need_no_build() {
    let probe = BuildProbe {
        project_root: true,
        descriptor_modified: Some(200),
        artifacts: vec![present(200)],
    };
    assert!(!should_auto_build(&probe));
}

#[test]
fn missing_binary_calls_for_a_build() {
    let probe = BuildProbe {
        project_root: true,
        descriptor_modified: Some(1),
        artifacts: vec![present(5), missing()],
    };
    assert!(should_auto_build(&probe));
}

#[test]
fn no_project_no_build() {
    let probe = BuildProbe {
        project_root: false,
        descriptor_modified: None,
        artifacts: vec![missing()],
    };
    assert!(!should_auto_build(&probe));
}

#[test]
fn nothing_expected_nothing_to_build() {
    let probe =
        BuildProbe { project_root: true, descriptor_modified: Some(200), artifacts: vec![] };
    assert!(!should_auto_build(&probe));
}

#[test]
fn unknown_times_do_not_call_for_a_build() {
    let probe = BuildProbe {
        project_root: true,
        descriptor_modified: None,
        artifacts: vec![present(1)],
    };
    assert!(!should_auto_build(&probe));
    let probe = BuildProbe {
        project_root: true,
        descriptor_modified: Some(100),
        artifacts: vec![ArtifactProbe { exists: true, modified: None }],
    };
    assert!(!should_auto_build(&probe));
}

#[test]
fn times_before_the_epoch_are_ordered_too() {
    let probe = BuildProbe {
        project_root: true,
        descriptor_modified: Some(-5),
        artifacts: vec![present(-10)],
    };
    assert!(should_auto_build(&probe));
}

#[test]
fn probe_turns_the_build_flag_on() {
    let stale = BuildProbe {
        project_root: true,
        descriptor_modified: Some(2),
        artifacts: vec![present(1), present(3)],
    };
    let fresh = BuildProbe {
        project_root: true,
        descriptor_modified: Some(2),
        artifacts: vec![present(3), present(3)],
    };
    let mut config = sample_config(false);
    config.detect_build(&fresh);
    assert_eq!(config, sample_config(false));
    config.detect_build(&stale);
    assert_eq!(config, sample_config(true));
    config.detect_build(&fresh);
    assert_eq!(config, sample_config(true));
}

#[test]
fn expected_paths_follow_the_binaries() {
    assert_eq!(
        sample_config(false).artifact_paths(),
        words(&["/p/target/t/release/a", "/p/target/t/release/b"])
    );
}

#[test]
fn release_profile_uses_the_release_flag() {
    assert_eq!(
        build_arguments("armv7-unknown-linux-gnueabihf", "release", false),
        words(&["build", "--target", "armv7-unknown-linux-gnueabihf", "--release"])
    );
}

#[test]
fn other_profiles_are_passed_by_name() {
    assert_eq!(
        build_arguments("t", "fast", false),
        words(&["build", "--target", "t", "--profile=fast"])
    );
}

#[test]
fn debug_builds_name_no_profile() {
    assert_eq!(build_arguments("t", "release", true), words(&["build", "--target", "t"]));
    assert_eq!(build_arguments("t", "fast", true), words(&["build", "--target", "t"]));
}
