use cargo_shipit::build_target_path;
use cargo_shipit::cli::{strip_subcommand, CliArgs};
use cargo_shipit::config::{PathCandidates, PathLookup};
use cargo_shipit::{Config, ConfigError, FileConfig, RequiredField};
use serde_json::Value;

fn no_cli() -> CliArgs {
    CliArgs {
        config: "shipit.json".to_string(),
        binaries: vec![],
        debug: false,
        remote_folder: None,
        host: None,
        username: None,
        password: None,
        key: None,
        port: None,
        target: None,
        target_folder: None,
        init: None,
        build: false,
        profile: "release".to_string(),
    }
}

fn record() -> FileConfig {
    FileConfig {
        host: Some("board.local".to_string()),
        port: Some(2222),
        username: Some("deploy".to_string()),
        password: Some("secret".to_string()),
        key: None,
        target_folder: "/p/target/".to_string(),
        target: Some("aarch64-unknown-linux-gnu".to_string()),
        remote_folder: Some("/opt/app/".to_string()),
        profile: None,
    }
}

fn bare_record() -> FileConfig {
    FileConfig {
        host: None,
        port: None,
        username: None,
        password: None,
        key: None,
        target_folder: "out".to_string(),
        target: None,
        remote_folder: None,
        profile: None,
    }
}

fn no_lookup() -> PathLookup {
    PathLookup { home: None, canonical_target_folder: None, canonical_key: None }
}

fn names(list: &[&str]) -> Vec<String> {
    list.iter().map(|s| s.to_string()).collect()
}

#[test]
fn override_host_wins_over_recorded_host() {
    let mut cli = no_cli();
    cli.host = Some("10.0.0.7".to_string());
    let config = Config::from_cli(cli, record(), None).unwrap();
    assert_eq!(config.host, "10.0.0.7");
}

#[test]
fn every_override_wins_but_the_profile() {
    let mut cli = no_cli();
    cli.host = Some("h".to_string());
    cli.port = Some(2200);
    cli.username = Some("u".to_string());
    cli.password = Some("p".to_string());
    cli.key = Some("/k".to_string());
    cli.target = Some("t".to_string());
    cli.remote_folder = Some("/r/".to_string());
    cli.debug = true;
    cli.build = true;
    cli.profile = "fast".to_string();
    let mut file = record();
    file.key = Some("/recorded".to_string());
    file.profile = Some("small".to_string());
    let config = Config::from_cli(cli, file, None).unwrap();
    assert_eq!(
        config,
        Config {
            host: "h".to_string(),
            port: 2200,
            username: "u".to_string(),
            password: "p".to_string(),
            key: Some("/k".to_string()),
            target_folder: "/p/target/".to_string(),
            target: "t".to_string(),
            remote_folder: "/r/".to_string(),
            debug: true,
            build: true,
            binaries: vec![],
            profile: "small".to_string(),
        }
    );
}

#[test]
fn recorded_values_are_used_without_overrides() {
    let config = Config::from_cli(no_cli(), record(), None).unwrap();
    assert_eq!(
        config,
        Config {
            host: "board.local".to_string(),
            port: 2222,
            username: "deploy".to_string(),
            password: "secret".to_string(),
            key: None,
            target_folder: "/p/target/".to_string(),
            target: "aarch64-unknown-linux-gnu".to_string(),
            remote_folder: "/opt/app/".to_string(),
            debug: false,
            build: false,
            binaries: vec![],
            profile: "release".to_string(),
        }
    );
}

#[test]
fn defaults_fill_what_neither_source_gives() {
    let mut file = bare_record();
    file.host = Some("h".to_string());
    file.username = Some("u".to_string());
    file.target = Some("t".to_string());
    let config = Config::from_cli(no_cli(), file, None).unwrap();
    assert_eq!(config.port, 22);
    assert_eq!(config.password, "");
    assert_eq!(config.key, None);
    assert_eq!(config.remote_folder, "/tmp/binaries/");
    assert_eq!(config.profile, "release");
    assert_eq!(config.target_folder, "out/");
}

#[test]
fn missing_host_fails() {
    let mut file = record();
    file.host = None;
    assert_eq!(
        Config::from_cli(no_cli(), file, None),
        Err(ConfigError::MissingRequiredField(RequiredField::Host))
    );
}

#[test]
fn missing_username_fails() {
    let mut file = record();
    file.username = None;
    assert_eq!(
        Config::from_cli(no_cli(), file, None),
        Err(ConfigError::MissingRequiredField(RequiredField::Username))
    );
}

#[test]
fn missing_target_fails() {
    let mut file = record();
    file.target = None;
    assert_eq!(
        Config::from_cli(no_cli(), file, None),
        Err(ConfigError::MissingRequiredField(RequiredField::Target))
    );
}

#[test]
fn the_first_missing_field_is_named() {
    assert_eq!(
        Config::from_cli(no_cli(), bare_record(), None),
        Err(ConfigError::MissingRequiredField(RequiredField::Host))
    );
    let mut file = bare_record();
    file.host = Some("h".to_string());
    assert_eq!(
        Config::from_cli(no_cli(), file, None),
        Err(ConfigError::MissingRequiredField(RequiredField::Username))
    );
}

#[test]
fn an_override_supplies_a_field_the_record_lacks() {
    let mut cli = no_cli();
    cli.host = Some("h".to_string());
    cli.username = Some("u".to_string());
    cli.target = Some("t".to_string());
    let config = Config::from_cli(cli, bare_record(), None).unwrap();
    assert_eq!(config.host, "h");
    assert_eq!(config.username, "u");
    assert_eq!(config.target, "t");
}

#[test]
fn target_folder_override_discards_the_recorded_target() {
    let mut cli = no_cli();
    cli.target_folder = Some("/elsewhere".to_string());
    assert_eq!(
        Config::from_cli(cli, record(), None),
        Err(ConfigError::MissingRequiredField(RequiredField::Target))
    );
    let mut cli = no_cli();
    cli.target_folder = Some("/elsewhere".to_string());
    cli.target = Some("".to_string());
    let config = Config::from_cli(cli, record(), None).unwrap();
    assert_eq!(config.target_folder, "/elsewhere/");
    assert_eq!(config.target, "");
}

#[test]
fn recorded_profile_wins_over_the_command_line() {
    let mut cli = no_cli();
    cli.profile = "fast".to_string();
    let mut file = record();
    file.profile = Some("small".to_string());
    assert_eq!(Config::from_cli(cli, file, None).unwrap().profile, "small");
    let mut cli = no_cli();
    cli.profile = "fast".to_string();
    assert_eq!(Config::from_cli(cli, record(), None).unwrap().profile, "fast");
}

#[test]
fn named_binaries_are_kept_and_discovered_ones_fill_in() {
    let mut cli = no_cli();
    cli.binaries = names(&["a", "b"]);
    let config = Config::from_cli(cli, record(), Some(names(&["x"]))).unwrap();
    assert_eq!(config.binaries, names(&["a", "b"]));
    let config = Config::from_cli(no_cli(), record(), Some(names(&["x", "y"]))).unwrap();
    assert_eq!(config.binaries, names(&["x", "y"]));
    let config = Config::from_cli(no_cli(), record(), Some(vec![])).unwrap();
    assert!(config.binaries.is_empty());
    let config = Config::from_cli(no_cli(), record(), None).unwrap();
    assert!(config.binaries.is_empty());
}

#[test]
fn detection_is_needed_only_without_named_binaries() {
    assert!(no_cli().needs_detection());
    let mut cli = no_cli();
    cli.binaries = names(&["a"]);
    assert!(!cli.needs_detection());
}

#[test]
fn relative_target_folder_is_resolved_against_the_config_directory() {
    let mut file = record();
    file.target_folder = "build".to_string();
    assert_eq!(file.resolve_relative_paths("/home/u/proj/shipit.json", &no_lookup()), Ok(()));
    assert_eq!(file.target_folder, "/home/u/proj/build/");
}

#[test]
fn from_file_resolves_the_paths_of_the_record() {
    let mut file = record();
    file.target_folder = "build".to_string();
    file.key = Some("keys/id".to_string());
    let done = FileConfig::from_file(file, "/home/u/proj/shipit.json", &no_lookup()).unwrap();
    assert_eq!(done.target_folder, "/home/u/proj/build/");
    assert_eq!(done.key, Some("/home/u/proj/keys/id".to_string()));
    assert_eq!(done.host, Some("board.local".to_string()));
}

#[test]
fn canonical_forms_are_preferred() {
    let mut file = record();
    file.target_folder = "../out".to_string();
    file.key = Some("k".to_string());
    let lookup = PathLookup {
        home: Some("/home/u".to_string()),
        canonical_target_folder: Some("/home/u/out".to_string()),
        canonical_key: Some("/real/k".to_string()),
    };
    assert_eq!(file.resolve_relative_paths("/home/u/proj/shipit.json", &lookup), Ok(()));
    assert_eq!(file.target_folder, "/home/u/out/");
    assert_eq!(file.key, Some("/real/k".to_string()));
}

#[test]
fn absolute_paths_stay_and_the_folder_gets_its_separator() {
    let mut file = record();
    file.target_folder = "/abs/target".to_string();
    file.key = Some("/abs/key".to_string());
    let lookup = PathLookup {
        home: Some("/home/u".to_string()),
        canonical_target_folder: Some("/never".to_string()),
        canonical_key: Some("/never".to_string()),
    };
    assert_eq!(file.resolve_relative_paths("conf/shipit.json", &lookup), Ok(()));
    assert_eq!(file.target_folder, "/abs/target/");
    assert_eq!(file.key, Some("/abs/key".to_string()));
}

#[test]
fn home_relative_key_is_expanded() {
    let mut file = record();
    file.key = Some("~/.ssh/id_ed25519".to_string());
    let lookup = PathLookup {
        home: Some("/home/u".to_string()),
        canonical_target_folder: None,
        canonical_key: Some("/never".to_string()),
    };
    assert_eq!(file.resolve_relative_paths("/etc/shipit.json", &lookup), Ok(()));
    assert_eq!(file.key, Some("/home/u/.ssh/id_ed25519".to_string()));
}

#[test]
fn home_relative_key_stays_without_a_home() {
    let mut file = record();
    file.key = Some("~/.ssh/id_ed25519".to_string());
    assert_eq!(file.resolve_relative_paths("/etc/shipit.json", &no_lookup()), Ok(()));
    assert_eq!(file.key, Some("~/.ssh/id_ed25519".to_string()));
}

#[test]
fn config_path_without_parent_is_an_error() {
    let mut file = record();
    file.target_folder = "build".to_string();
    let before = file.clone();
    assert_eq!(
        file.resolve_relative_paths("/", &no_lookup()),
        Err(ConfigError::NoParentDirectory)
    );
    assert_eq!(file, before);
    assert_eq!(file.resolve_relative_paths("", &no_lookup()), Err(ConfigError::NoParentDirectory));
    assert_eq!(file.path_candidates(""), Err(ConfigError::NoParentDirectory));
    assert_eq!(
        FileConfig::from_file(file, "/", &no_lookup()),
        Err(ConfigError::NoParentDirectory)
    );
}

#[test]
fn bare_config_name_resolves_against_the_empty_directory() {
    let mut file = record();
    file.target_folder = "build".to_string();
    assert_eq!(file.resolve_relative_paths("shipit.json", &no_lookup()), Ok(()));
    assert_eq!(file.target_folder, "build/");
}

#[test]
fn candidates_are_the_relative_paths_below_the_config_directory() {
    let mut file = record();
    file.target_folder = "build".to_string();
    file.key = Some("keys/id".to_string());
    assert_eq!(
        file.path_candidates("/home/u/proj/shipit.json"),
        Ok(PathCandidates {
            target_folder: Some("/home/u/proj/build".to_string()),
            key: Some("/home/u/proj/keys/id".to_string()),
        })
    );
    file.target_folder = "/abs".to_string();
    file.key = Some("~/id".to_string());
    assert_eq!(
        file.path_candidates("/home/u/proj/shipit.json"),
        Ok(PathCandidates { target_folder: None, key: None })
    );
}

#[test]
fn local_path_without_target_triple() {
    let mut cli = no_cli();
    cli.target = Some("".to_string());
    cli.binaries = names(&["app"]);
    let config = Config::from_cli(cli, record(), None).unwrap();
    assert_eq!(build_target_path(&config), "/p/target/release/");
    assert_eq!(config.local_artifact_path("app"), "/p/target/release/app");
    assert_eq!(config.artifact_paths(), names(&["/p/target/release/app"]));
}

#[test]
fn local_path_with_target_triple_and_profiles() {
    let config = Config::from_cli(no_cli(), record(), None).unwrap();
    assert_eq!(build_target_path(&config), "/p/target/aarch64-unknown-linux-gnu/release/");
    let mut cli = no_cli();
    cli.debug = true;
    let config = Config::from_cli(cli, record(), None).unwrap();
    assert_eq!(build_target_path(&config), "/p/target/aarch64-unknown-linux-gnu/debug/");
    let mut cli = no_cli();
    cli.profile = "fast".to_string();
    let config = Config::from_cli(cli, record(), None).unwrap();
    assert_eq!(config.local_artifact_path("app"), "/p/target/aarch64-unknown-linux-gnu/fast/app");
}

#[test]
fn remote_path_is_the_remote_folder_and_the_name() {
    let config = Config::from_cli(no_cli(), record(), None).unwrap();
    assert_eq!(config.remote_artifact_path("app"), "/opt/app/app");
}

#[test]
fn template_has_the_embedded_target_defaults() {
    assert_eq!(
        FileConfig::template("/work/proj"),
        FileConfig {
            host: Some("embedded-linux-target".to_string()),
            port: Some(22),
            username: Some("root".to_string()),
            password: Some("password".to_string()),
            key: None,
            target_folder: "/work/proj/target/".to_string(),
            target: Some("armv7-unknown-linux-gnueabihf".to_string()),
            remote_folder: Some("/tmp/binaries/".to_string()),
            profile: Some("release".to_string()),
        }
    );
}

#[test]
fn template_resolves_to_its_own_values() {
    let template = FileConfig::template("/work/proj");
    let read_back = FileConfig::from_file(template.clone(), "/work/proj/shipit.json", &no_lookup())
        .unwrap();
    assert_eq!(read_back, template);
    let config = Config::from_cli(no_cli(), read_back, None).unwrap();
    assert_eq!(
        config,
        Config {
            host: "embedded-linux-target".to_string(),
            port: 22,
            username: "root".to_string(),
            password: "password".to_string(),
            key: None,
            target_folder: "/work/proj/target/".to_string(),
            target: "armv7-unknown-linux-gnueabihf".to_string(),
            remote_folder: "/tmp/binaries/".to_string(),
            debug: false,
            build: false,
            binaries: vec![],
            profile: "release".to_string(),
        }
    );
}

#[test]
fn command_line_is_written_over_the_record() {
    let mut cli = no_cli();
    cli.host = Some("h".to_string());
    cli.port = Some(2200);
    cli.username = Some("u".to_string());
    cli.password = Some("p".to_string());
    cli.key = Some("/k".to_string());
    cli.remote_folder = Some("/r/".to_string());
    cli.target = Some("ignored-here".to_string());
    cli.profile = "fast".to_string();
    let mut file = record();
    file.profile = Some("small".to_string());
    file.cli_overide(&cli);
    assert_eq!(
        file,
        FileConfig {
            host: Some("h".to_string()),
            port: Some(2200),
            username: Some("u".to_string()),
            password: Some("p".to_string()),
            key: Some("/k".to_string()),
            target_folder: "/p/target/".to_string(),
            target: Some("aarch64-unknown-linux-gnu".to_string()),
            remote_folder: Some("/r/".to_string()),
            profile: Some("fast".to_string()),
        }
    );
}

#[test]
fn writing_a_target_folder_erases_the_recorded_target() {
    let mut cli = no_cli();
    cli.target_folder = Some("/new".to_string());
    cli.profile = String::new();
    let mut file = record();
    file.profile = Some("small".to_string());
    file.cli_overide(&cli);
    assert_eq!(file.target_folder, "/new");
    assert_eq!(file.target, None);
    assert_eq!(file.profile, Some("small".to_string()));
    assert_eq!(file.host, Some("board.local".to_string()));
}

#[test]
fn subcommand_word_is_left_out_of_the_arguments() {
    assert_eq!(
        strip_subcommand(names(&["cargo-shipit", "shipit", "--debug"])),
        names(&["cargo-shipit", "--debug"])
    );
    assert_eq!(
        strip_subcommand(names(&["cargo-shipit", "--debug", "shipit"])),
        names(&["cargo-shipit", "--debug", "shipit"])
    );
    assert_eq!(strip_subcommand(names(&["shipit"])), names(&["shipit"]));
    assert_eq!(strip_subcommand(vec![]), Vec::<String>::new());
}

fn text(value: &Option<String>) -> Value {
    match value {
        Some(s) => Value::String(s.clone()),
        None => Value::Null,
    }
}

fn to_json(record: &FileConfig) -> String {
    let mut object = serde_json::Map::new();
    object.insert("host".to_string(), text(&record.host));
    object.insert(
        "port".to_string(),
        match record.port {
            Some(p) => Value::from(p),
            None => Value::Null,
        },
    );
    object.insert("username".to_string(), text(&record.username));
    object.insert("password".to_string(), text(&record.password));
    object.insert("key".to_string(), text(&record.key));
    object.insert("target_folder".to_string(), Value::String(record.target_folder.clone()));
    object.insert("target".to_string(), text(&record.target));
    object.insert("remote_folder".to_string(), text(&record.remote_folder));
    object.insert("profile".to_string(), text(&record.profile));
    serde_json::to_string_pretty(&Value::Object(object)).expect("an object of strings serialises")
}

fn field(object: &Value, name: &str) -> Option<String> {
    object.get(name).and_then(|v| v.as_str()).map(|s| s.to_string())
}

fn from_json(json: &str) -> FileConfig {
    let object: Value = serde_json::from_str(json).expect("the text is JSON");
    FileConfig {
        host: field(&object, "host"),
        port: object.get("port").and_then(|v| v.as_u64()).map(|p| p as u16),
        username: field(&object, "username"),
        password: field(&object, "password"),
        key: field(&object, "key"),
        target_folder: field(&object, "target_folder").expect("the target folder is required"),
        target: field(&object, "target"),
        remote_folder: field(&object, "remote_folder"),
        profile: field(&object, "profile"),
    }
}

#[test]
fn template_survives_the_trip_through_json() {
    let template = FileConfig::template("/work/proj");
    let json = to_json(&template);
    let read = from_json(json.as_str());
    assert_eq!(read, template);
    let located = FileConfig::from_file(read, "/work/proj/shipit.json", &no_lookup()).unwrap();
    let config = Config::from_cli(no_cli(), located, None).unwrap();
    assert_eq!(config.host, template.host.unwrap());
    assert_eq!(config.port, template.port.unwrap());
    assert_eq!(config.username, template.username.unwrap());
    assert_eq!(config.password, template.password.unwrap());
    assert_eq!(config.key, template.key);
    assert_eq!(config.target_folder, template.target_folder);
    assert_eq!(config.target, template.target.unwrap());
    assert_eq!(config.remote_folder, template.remote_folder.unwrap());
    assert_eq!(config.profile, template.profile.unwrap());
}
