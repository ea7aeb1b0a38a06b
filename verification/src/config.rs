//! The persisted configuration record, the resolved configuration, and the
//! rules by which the one becomes the other.

use crate::cli::{CliArgs, CliArgsView};
use crate::path::{
    ends_with_separator, ensure_trailing_separator, expand_home, expand_home_dir, has_root,
    is_home_relative, is_plain_name, is_relative, is_trimmed, join, join_path,
    lemma_join_is_absolute, lemma_parent_of_absolute, lemma_parent_of_joined, parent, parent_dir,
    starts_with_home, with_trailing_separator,
};
use vstd::prelude::*;

verus! {

/// The record kept in the configuration file. Every field but the target
/// folder may be absent.
#[derive(Debug, Clone, PartialEq, Eq)]
pub struct FileConfig {
    pub host: Option<String>,
    pub port: Option<u16>,
    pub username: Option<String>,
    pub password: Option<String>,
    pub key: Option<String>,
    pub target_folder: String,
    pub target: Option<String>,
    pub remote_folder: Option<String>,
    pub profile: Option<String>,
}

/// The mathematical content of [`FileConfig`].
pub struct FileConfigView {
    pub host: Option<Seq<char>>,
    pub port: Option<u16>,
    pub username: Option<Seq<char>>,
    pub password: Option<Seq<char>>,
    pub key: Option<Seq<char>>,
    pub target_folder: Seq<char>,
    pub target: Option<Seq<char>>,
    pub remote_folder: Option<Seq<char>>,
    pub profile: Option<Seq<char>>,
}

impl View for FileConfig {
    type V = FileConfigView;

    open spec fn view(&self) -> FileConfigView {
        FileConfigView {
            host: self.host.deep_view(),
            port: self.port,
            username: self.username.deep_view(),
            password: self.password.deep_view(),
            key: self.key.deep_view(),
            target_folder: self.target_folder@,
            target: self.target.deep_view(),
            remote_folder: self.remote_folder.deep_view(),
            profile: self.profile.deep_view(),
        }
    }
}

/// The configuration that one deployment runs with: every value is settled.
#[derive(Debug, Clone, PartialEq, Eq)]
pub struct Config {
    pub host: String,
    pub port: u16,
    pub username: String,
    pub password: String,
    pub key: Option<String>,
    pub target_folder: String,
    pub target: String,
    pub remote_folder: String,
    pub debug: bool,
    pub build: bool,
    pub binaries: Vec<String>,
    pub profile: String,
}

/// The mathematical content of [`Config`].
pub struct ConfigView {
    pub host: Seq<char>,
    pub port: u16,
    pub username: Seq<char>,
    pub password: Seq<char>,
    pub key: Option<Seq<char>>,
    pub target_folder: Seq<char>,
    pub target: Seq<char>,
    pub remote_folder: Seq<char>,
    pub debug: bool,
    pub build: bool,
    pub binaries: Seq<Seq<char>>,
    pub profile: Seq<char>,
}

impl View for Config {
    type V = ConfigView;

    open spec fn view(&self) -> ConfigView {
        ConfigView {
            host: self.host@,
            port: self.port,
            username: self.username@,
            password: self.password@,
            key: self.key.deep_view(),
            target_folder: self.target_folder@,
            target: self.target@,
            remote_folder: self.remote_folder@,
            debug: self.debug,
            build: self.build,
            binaries: self.binaries.deep_view(),
            profile: self.profile@,
        }
    }
}

impl ConfigView {
    /// A resolved configuration is well formed when its target folder ends
    /// with a path separator.
    pub open spec fn wf(self) -> bool {
        ends_with_separator(self.target_folder)
    }
}

/// A value that neither the record nor the command line may leave out.
#[derive(Debug, Clone, Copy, PartialEq, Eq, Structural)]
pub enum RequiredField {
    Host,
    Username,
    Target,
}

/// Why a configuration could not be resolved.
#[derive(Debug, Clone, Copy, PartialEq, Eq, Structural)]
pub enum ConfigError {
    /// Neither the record nor the command line supplies the field.
    MissingRequiredField(RequiredField),
    /// The path of the configuration file has no directory part against
    /// which relative paths could be resolved.
    NoParentDirectory,
}

/// What the surroundings report about the paths of a record: the home
/// directory, and the canonical form of each candidate path, each absent where
/// it could not be had or was not asked for.
#[derive(Debug, Clone, PartialEq, Eq)]
pub struct PathLookup {
    pub home: Option<String>,
    pub canonical_target_folder: Option<String>,
    pub canonical_key: Option<String>,
}

/// The mathematical content of [`PathLookup`].
pub struct PathLookupView {
    pub home: Option<Seq<char>>,
    pub canonical_target_folder: Option<Seq<char>>,
    pub canonical_key: Option<Seq<char>>,
}

impl View for PathLookup {
    type V = PathLookupView;

    open spec fn view(&self) -> PathLookupView {
        PathLookupView {
            home: self.home.deep_view(),
            canonical_target_folder: self.canonical_target_folder.deep_view(),
            canonical_key: self.canonical_key.deep_view(),
        }
    }
}

/// The paths of a record that are relative, each adjoined to the directory of
/// the configuration file: the paths whose canonical form matters.
#[derive(Debug, Clone, PartialEq, Eq)]
pub struct PathCandidates {
    pub target_folder: Option<String>,
    pub key: Option<String>,
}

/// The mathematical content of [`PathCandidates`].
pub struct PathCandidatesView {
    pub target_folder: Option<Seq<char>>,
    pub key: Option<Seq<char>>,
}

impl View for PathCandidates {
    type V = PathCandidatesView;

    open spec fn view(&self) -> PathCandidatesView {
        PathCandidatesView {
            target_folder: self.target_folder.deep_view(),
            key: self.key.deep_view(),
        }
    }
}

/// `first` where it is present, else `second`.
pub open spec fn prefer<T>(first: Option<T>, second: Option<T>) -> Option<T> {
    if first is Some {
        first
    } else {
        second
    }
}

/// `value` where it is present, else `default`.
pub open spec fn or_default<T>(value: Option<T>, default: T) -> T {
    match value {
        Some(v) => v,
        None => default,
    }
}

/// Port used when none is configured.
pub const DEFAULT_PORT: u16 = 22;

/// Remote folder used when none is configured.
pub open spec fn default_remote_folder() -> Seq<char> {
    "/tmp/binaries/"@
}

/// The record `file` after the command-line values `cli` were written over
/// it: each present value replaces the recorded one, a non-empty profile
/// replaces the recorded profile, and a target folder given on the command
/// line also erases the recorded target triple.
pub open spec fn overridden(file: FileConfigView, cli: CliArgsView) -> FileConfigView {
    FileConfigView {
        host: prefer(cli.host, file.host),
        port: prefer(cli.port, file.port),
        username: prefer(cli.username, file.username),
        password: prefer(cli.password, file.password),
        key: prefer(cli.key, file.key),
        target_folder: or_default(cli.target_folder, file.target_folder),
        target: if cli.target_folder is Some {
            None
        } else {
            file.target
        },
        remote_folder: prefer(cli.remote_folder, file.remote_folder),
        profile: if cli.profile.len() > 0 {
            Some(cli.profile)
        } else {
            file.profile
        },
    }
}

/// Whether the key path `k` is resolved against the directory of the
/// configuration file: it is relative and does not begin with `~/`.
pub open spec fn key_is_config_relative(k: Seq<char>) -> bool {
    !is_home_relative(k) && !has_root(k)
}

/// The relative paths of `file`, adjoined to the directory `dir`.
pub open spec fn candidates_in(file: FileConfigView, dir: Seq<char>) -> PathCandidatesView {
    PathCandidatesView {
        target_folder: if has_root(file.target_folder) {
            None
        } else {
            Some(join(dir, file.target_folder))
        },
        key: if file.key is Some && key_is_config_relative(file.key->0) {
            Some(join(dir, file.key->0))
        } else {
            None
        },
    }
}

/// The candidates of `file` when read from `config_file_path`, or the error
/// where that path has no directory part.
pub open spec fn candidates(file: FileConfigView, config_file_path: Seq<char>) -> Result<
    PathCandidatesView,
    ConfigError,
> {
    match parent(config_file_path) {
        Some(dir) => Ok(candidates_in(file, dir)),
        None => Err(ConfigError::NoParentDirectory),
    }
}

/// The target folder of `file` once resolved against `dir`: a relative folder
/// becomes its canonical form, or where there is none its path below `dir`;
/// the outcome ends with a separator.
pub open spec fn located_target_folder(
    file: FileConfigView,
    dir: Seq<char>,
    lookup: PathLookupView,
) -> Seq<char> {
    with_trailing_separator(
        if has_root(file.target_folder) {
            file.target_folder
        } else {
            or_default(lookup.canonical_target_folder, join(dir, file.target_folder))
        },
    )
}

/// The key path `k` once resolved against `dir`: a leading `~/` is expanded
/// with the home directory where that is known; another relative path becomes
/// its canonical form, or where there is none its path below `dir`.
pub open spec fn located_key(k: Seq<char>, dir: Seq<char>, lookup: PathLookupView) -> Seq<char> {
    if is_home_relative(k) {
        match lookup.home {
            Some(home) => expand_home(k, home),
            None => k,
        }
    } else if has_root(k) {
        k
    } else {
        or_default(lookup.canonical_key, join(dir, k))
    }
}

/// The record `file` with its paths resolved against the directory `dir`.
pub open spec fn located_in(
    file: FileConfigView,
    dir: Seq<char>,
    lookup: PathLookupView,
) -> FileConfigView {
    FileConfigView {
        target_folder: located_target_folder(file, dir, lookup),
        key: match file.key {
            Some(k) => Some(located_key(k, dir, lookup)),
            None => None,
        },
        ..file
    }
}

/// The record `file`, read from `config_file_path`, with its paths resolved,
/// or the error where that path has no directory part.
pub open spec fn located(
    file: FileConfigView,
    config_file_path: Seq<char>,
    lookup: PathLookupView,
) -> Result<FileConfigView, ConfigError> {
    match parent(config_file_path) {
        Some(dir) => Ok(located_in(file, dir, lookup)),
        None => Err(ConfigError::NoParentDirectory),
    }
}

/// The record that a new configuration file starts from, for a project in
/// `current_dir`.
pub open spec fn template_record(current_dir: Seq<char>) -> FileConfigView {
    FileConfigView {
        host: Some("embedded-linux-target"@),
        port: Some(DEFAULT_PORT),
        username: Some("root"@),
        password: Some("password"@),
        key: None,
        target_folder: current_dir + "/target/"@,
        target: Some("armv7-unknown-linux-gnueabihf"@),
        remote_folder: Some(default_remote_folder()),
        profile: Some("release"@),
    }
}

/// The directory, below the target folder, that holds the built binaries:
/// the target folder, then the target triple where there is one, then
/// `debug` or the profile's name, each followed by a separator.
pub open spec fn target_path(c: ConfigView) -> Seq<char> {
    c.target_folder + (if c.target.len() > 0 {
        c.target + seq!['/']
    } else {
        Seq::<char>::empty()
    }) + (if c.debug {
        "debug"@
    } else {
        c.profile
    }) + seq!['/']
}

/// Where the binary `name` is expected on this machine.
pub open spec fn local_path(c: ConfigView, name: Seq<char>) -> Seq<char> {
    target_path(c) + name
}

/// Where the binary `name` is put on the target host.
pub open spec fn remote_path(c: ConfigView, name: Seq<char>) -> Seq<char> {
    c.remote_folder + name
}

/// The target triple that resolution draws on: the command line's, else the
/// recorded one unless a target folder was given on the command line.
pub open spec fn effective_target(cli: CliArgsView, file: FileConfigView) -> Option<Seq<char>> {
    prefer(
        cli.target,
        if cli.target_folder is Some {
            None
        } else {
            file.target
        },
    )
}

/// The binaries to deploy: those named on the command line; where none was
/// named, those discovered, if discovery succeeded and found any.
pub open spec fn chosen_binaries(
    named: Seq<Seq<char>>,
    detected: Option<Seq<Seq<char>>>,
) -> Seq<Seq<char>> {
    if named.len() == 0 && detected is Some && detected->0.len() > 0 {
        detected->0
    } else {
        named
    }
}

/// The first required field that neither source supplies, in the order host,
/// user name, target triple.
pub open spec fn missing_field(cli: CliArgsView, file: FileConfigView) -> Option<RequiredField> {
    if prefer(cli.host, file.host) is None {
        Some(RequiredField::Host)
    } else if prefer(cli.username, file.username) is None {
        Some(RequiredField::Username)
    } else if effective_target(cli, file) is None {
        Some(RequiredField::Target)
    } else {
        None
    }
}

/// The configuration that `file` and `cli` resolve to, field by field, or the
/// reason why they resolve to none.
pub open spec fn resolved(
    cli: CliArgsView,
    file: FileConfigView,
    detected: Option<Seq<Seq<char>>>,
) -> Result<ConfigView, ConfigError> {
    match missing_field(cli, file) {
        Some(field) => Err(ConfigError::MissingRequiredField(field)),
        None => Ok(
            ConfigView {
                host: prefer(cli.host, file.host)->0,
                port: or_default(prefer(cli.port, file.port), DEFAULT_PORT),
                username: prefer(cli.username, file.username)->0,
                password: or_default(prefer(cli.password, file.password), Seq::<char>::empty()),
                key: prefer(cli.key, file.key),
                target_folder: with_trailing_separator(
                    or_default(cli.target_folder, file.target_folder),
                ),
                target: effective_target(cli, file)->0,
                remote_folder: or_default(
                    prefer(cli.remote_folder, file.remote_folder),
                    default_remote_folder(),
                ),
                debug: cli.debug,
                build: cli.build,
                binaries: chosen_binaries(cli.binaries, detected),
                profile: or_default(file.profile, cli.profile),
            },
        ),
    }
}

/// The view of a resolution's outcome.
pub open spec fn outcome_view(r: Result<Config, ConfigError>) -> Result<ConfigView, ConfigError> {
    match r {
        Ok(c) => Ok(c@),
        Err(e) => Err(e),
    }
}

fn first_of(first: Option<String>, second: Option<String>) -> (r: Option<String>)
    ensures
        r.deep_view() == prefer(first.deep_view(), second.deep_view()),
{
    match first {
        Some(v) => Some(v),
        None => second,
    }
}

impl FileConfig {
    /// Writes the values given on the command line over the record.
    pub fn cli_overide(&mut self, cli: &CliArgs)
        ensures
            final(self)@ == overridden(old(self)@, cli@),
    {
        if let Some(host) = &cli.host {
            self.host = Some(host.clone());
        }
        if let Some(port) = cli.port {
            self.port = Some(port);
        }
        if let Some(username) = &cli.username {
            self.username = Some(username.clone());
        }
        if let Some(password) = &cli.password {
            self.password = Some(password.clone());
        }
        if let Some(key) = &cli.key {
            self.key = Some(key.clone());
        }
        if let Some(remote_folder) = &cli.remote_folder {
            self.remote_folder = Some(remote_folder.clone());
        }
        if !cli.profile.as_str().is_empty() {
            self.profile = Some(cli.profile.clone());
        }
        if let Some(target_folder) = &cli.target_folder {
            self.target_folder = target_folder.clone();
            self.target = None;
        }
    }
}

impl FileConfig {
    /// The record that a new configuration file starts from, for a project in
    /// `current_dir`.
    pub fn template(current_dir: &str) -> (r: FileConfig)
        ensures
            r@ == template_record(current_dir@),
    {
        FileConfig {
            host: Some(String::from_str("embedded-linux-target")),
            port: Some(DEFAULT_PORT),
            username: Some(String::from_str("root")),
            password: Some(String::from_str("password")),
            key: None,
            target_folder: String::from_str(current_dir).concat("/target/"),
            target: Some(String::from_str("armv7-unknown-linux-gnueabihf")),
            remote_folder: Some(String::from_str("/tmp/binaries/")),
            profile: Some(String::from_str("release")),
        }
    }

    /// The relative paths of the record, each adjoined to the directory of
    /// the configuration file at `config_file_path`.
    pub fn path_candidates(&self, config_file_path: &str) -> (r: Result<
        PathCandidates,
        ConfigError,
    >)
        ensures
            match r {
                Ok(c) => candidates(self@, config_file_path@) == Ok::<
                    PathCandidatesView,
                    ConfigError,
                >(c@),
                Err(e) => candidates(self@, config_file_path@) == Err::<
                    PathCandidatesView,
                    ConfigError,
                >(e),
            },
    {
        let dir = match parent_dir(config_file_path) {
            Some(dir) => dir,
            None => {
                return Err(ConfigError::NoParentDirectory);
            },
        };
        let target_folder = if is_relative(self.target_folder.as_str()) {
            Some(join_path(dir.as_str(), self.target_folder.as_str()))
        } else {
            None
        };
        let key = match &self.key {
            Some(k) => {
                if !starts_with_home(k.as_str()) && is_relative(k.as_str()) {
                    Some(join_path(dir.as_str(), k.as_str()))
                } else {
                    None
                }
            },
            None => None,
        };
        Ok(PathCandidates { target_folder, key })
    }

    /// Resolves the paths of the record against the directory of the
    /// configuration file at `config_file_path`. On an error the record is
    /// left as it was.
    pub fn resolve_relative_paths(&mut self, config_file_path: &str, lookup: &PathLookup) -> (r:
        Result<(), ConfigError>)
        ensures
            match r {
                Ok(_) => located(old(self)@, config_file_path@, lookup@) == Ok::<
                    FileConfigView,
                    ConfigError,
                >(final(self)@),
                Err(e) => located(old(self)@, config_file_path@, lookup@) == Err::<
                    FileConfigView,
                    ConfigError,
                >(e) && final(self)@ == old(self)@,
            },
            r is Ok ==> ends_with_separator(final(self)@.target_folder),
    {
        let dir = match parent_dir(config_file_path) {
            Some(dir) => dir,
            None => {
                return Err(ConfigError::NoParentDirectory);
            },
        };
        let folder = if is_relative(self.target_folder.as_str()) {
            match &lookup.canonical_target_folder {
                Some(canonical) => canonical.clone(),
                None => join_path(dir.as_str(), self.target_folder.as_str()),
            }
        } else {
            self.target_folder.clone()
        };
        let key = match &self.key {
            Some(k) => {
                if starts_with_home(k.as_str()) {
                    match &lookup.home {
                        Some(home) => Some(expand_home_dir(k.as_str(), home.as_str())),
                        None => Some(k.clone()),
                    }
                } else if is_relative(k.as_str()) {
                    match &lookup.canonical_key {
                        Some(canonical) => Some(canonical.clone()),
                        None => Some(join_path(dir.as_str(), k.as_str())),
                    }
                } else {
                    Some(k.clone())
                }
            },
            None => None,
        };
        self.target_folder = ensure_trailing_separator(folder);
        self.key = key;
        Ok(())
    }

    /// Completes a record that was read from the file at `path` by resolving
    /// its paths.
    pub fn from_file(record: FileConfig, path: &str, lookup: &PathLookup) -> (r: Result<
        FileConfig,
        ConfigError,
    >)
        ensures
            match r {
                Ok(c) => located(record@, path@, lookup@) == Ok::<FileConfigView, ConfigError>(
                    c@,
                ),
                Err(e) => located(record@, path@, lookup@) == Err::<FileConfigView, ConfigError>(
                    e,
                ),
            },
            r matches Ok(c) ==> ends_with_separator(c@.target_folder),
    {
        let mut config = record;
        match config.resolve_relative_paths(path, lookup) {
            Ok(_) => Ok(config),
            Err(e) => Err(e),
        }
    }
}

/// The directory that holds the built binaries of `config`.
pub fn build_target_path(config: &Config) -> (r: String)
    ensures
        r@ == target_path(config@),
{
    proof {
        reveal_strlit("/");
    }
    assert("/"@ =~= seq!['/']);
    let mut path = config.target_folder.clone();
    if !config.target.as_str().is_empty() {
        path.append(config.target.as_str());
        path.append("/");
    }
    if config.debug {
        path.append("debug");
    } else {
        path.append(config.profile.as_str());
    }
    path.append("/");
    assert(path@ =~= target_path(config@));
    path
}

impl Config {
    /// Where the binary `name` is expected on this machine.
    pub fn local_artifact_path(&self, name: &str) -> (r: String)
        ensures
            r@ == local_path(self@, name@),
    {
        build_target_path(self).concat(name)
    }

    /// Where the binary `name` is put on the target host.
    pub fn remote_artifact_path(&self, name: &str) -> (r: String)
        ensures
            r@ == remote_path(self@, name@),
    {
        self.remote_folder.clone().concat(name)
    }

    /// Resolves the record and the command line into one configuration.
    ///
    /// `detected` holds the binaries that discovery found, or nothing where
    /// discovery failed or was not attempted. The result's build flag is the
    /// one given on the command line.
    pub fn from_cli(cli: CliArgs, file_config: FileConfig, detected: Option<Vec<String>>) -> (r:
        Result<Config, ConfigError>)
        ensures
            outcome_view(r) == resolved(cli@, file_config@, detected.deep_view()),
            r matches Ok(c) ==> c@.wf(),
    {
        let ghost cli_view = cli@;
        let ghost file_view = file_config@;
        let CliArgs {
            config: _,
            binaries: named,
            debug,
            remote_folder: cli_remote_folder,
            host: cli_host,
            username: cli_username,
            password: cli_password,
            key: cli_key,
            port: cli_port,
            target: cli_target,
            target_folder: cli_target_folder,
            init: _,
            build,
            profile: cli_profile,
        } = cli;
        let FileConfig {
            host: file_host,
            port: file_port,
            username: file_username,
            password: file_password,
            key: file_key,
            target_folder: file_target_folder,
            target: file_target,
            remote_folder: file_remote_folder,
            profile: file_profile,
        } = file_config;
        let host = match first_of(cli_host, file_host) {
            Some(v) => v,
            None => {
                return Err(ConfigError::MissingRequiredField(RequiredField::Host));
            },
        };
        let username = match first_of(cli_username, file_username) {
            Some(v) => v,
            None => {
                return Err(ConfigError::MissingRequiredField(RequiredField::Username));
            },
        };
        let recorded_target = if cli_target_folder.is_some() {
            None
        } else {
            file_target
        };
        let target = match first_of(cli_target, recorded_target) {
            Some(v) => v,
            None => {
                return Err(ConfigError::MissingRequiredField(RequiredField::Target));
            },
        };
        let port = match cli_port {
            Some(p) => p,
            None => match file_port {
                Some(p) => p,
                None => DEFAULT_PORT,
            },
        };
        let password = match first_of(cli_password, file_password) {
            Some(v) => v,
            None => String::new(),
        };
        let key = first_of(cli_key, file_key);
        let target_folder = ensure_trailing_separator(
            match cli_target_folder {
                Some(v) => v,
                None => file_target_folder,
            },
        );
        let remote_folder = match first_of(cli_remote_folder, file_remote_folder) {
            Some(v) => v,
            None => String::from_str("/tmp/binaries/"),
        };
        let use_detected = named.len() == 0 && match &detected {
            Some(found) => found.len() > 0,
            None => false,
        };
        let binaries = if use_detected {
            detected.unwrap()
        } else {
            named
        };
        let profile = match file_profile {
            Some(v) => v,
            None => cli_profile,
        };
        let config = Config {
            host,
            port,
            username,
            password,
            key,
            target_folder,
            target,
            remote_folder,
            debug,
            build,
            binaries,
            profile,
        };
        proof {
            assert(cli_view.binaries.len() == named@.len());
            if detected is Some {
                assert(detected.deep_view()->0.len() == detected->0@.len());
            }
            assert(config@ == resolved(cli_view, file_view, detected.deep_view())->Ok_0);
        }
        Ok(config)
    }
}

/// Appending the separator twice changes nothing more.
pub proof fn lemma_trailing_separator_idempotent(s: Seq<char>)
    ensures
        ends_with_separator(with_trailing_separator(s)),
        with_trailing_separator(with_trailing_separator(s)) == with_trailing_separator(s),
{
}

/// A record read from a configuration file with an absolute path has, once
/// its paths are resolved, an absolute target folder that ends with a
/// separator, provided that the canonical form it was given, if any, is
/// absolute.
pub proof fn lemma_located_folder_is_absolute(
    file: FileConfigView,
    config_file_path: Seq<char>,
    lookup: PathLookupView,
)
    requires
        has_root(config_file_path),
        lookup.canonical_target_folder matches Some(canonical) ==> has_root(canonical),
    ensures
        located(file, config_file_path, lookup) matches Ok(r) ==> has_root(r.target_folder)
            && ends_with_separator(r.target_folder),
{
    if parent(config_file_path) is Some {
        let dir = parent(config_file_path)->0;
        lemma_parent_of_absolute(config_file_path);
        lemma_join_is_absolute(dir, file.target_folder);
    }
}

/// A relative target folder lands below the directory of the configuration
/// file. For a configuration file named `config_name` in the directory `dir`,
/// and a target folder that has no canonical form, the resolved target folder
/// is `dir`, a separator, the recorded folder, and a separator at the end
/// unless the recorded folder ends with one.
pub proof fn lemma_relative_folder_lands_below_config_directory(
    file: FileConfigView,
    dir: Seq<char>,
    config_name: Seq<char>,
    lookup: PathLookupView,
)
    requires
        dir.len() > 0,
        is_trimmed(dir),
        dir.last() != '/',
        is_plain_name(config_name),
        !has_root(file.target_folder),
        lookup.canonical_target_folder is None,
    ensures
        located(file, dir + seq!['/'] + config_name, lookup) matches Ok(r) && r.target_folder
            == with_trailing_separator(dir + seq!['/'] + file.target_folder),
{
    lemma_parent_of_joined(dir, config_name);
}

/// Resolving the paths of a record touches only the target folder and the
/// key.
pub proof fn lemma_located_keeps_the_rest(
    file: FileConfigView,
    config_file_path: Seq<char>,
    lookup: PathLookupView,
)
    ensures
        located(file, config_file_path, lookup) matches Ok(r) ==> r.host == file.host && r.port
            == file.port && r.username == file.username && r.password == file.password
            && r.target == file.target && r.remote_folder == file.remote_folder && r.profile
            == file.profile && (r.key is Some <==> file.key is Some),
{
}

/// Resolution fails exactly where a required field is supplied by neither
/// source, and then names the first such field.
pub proof fn lemma_resolution_fails_iff_field_missing(
    cli: CliArgsView,
    file: FileConfigView,
    detected: Option<Seq<Seq<char>>>,
)
    ensures
        resolved(cli, file, detected) is Err <==> missing_field(cli, file) is Some,
        missing_field(cli, file) matches Some(field) ==> resolved(cli, file, detected) == Err::<
            ConfigView,
            ConfigError,
        >(ConfigError::MissingRequiredField(field)),
{
}

/// A record that lacks the host, the user name or the target triple, with no
/// value for it on the command line, does not resolve: the outcome is a
/// missing required field.
pub proof fn lemma_missing_required_field(
    cli: CliArgsView,
    file: FileConfigView,
    detected: Option<Seq<Seq<char>>>,
)
    requires
        (file.host is None && cli.host is None) || (file.username is None && cli.username is None)
            || (file.target is None && cli.target is None),
    ensures
        resolved(cli, file, detected) matches Err(e) && e is MissingRequiredField,
{
}

/// Where both the record and the command line supply a host, a configuration
/// that resolves carries the command line's host; a resolution that fails
/// does so for another field.
pub proof fn lemma_override_host_wins(
    cli: CliArgsView,
    file: FileConfigView,
    detected: Option<Seq<Seq<char>>>,
)
    requires
        cli.host is Some,
        file.host is Some,
    ensures
        match resolved(cli, file, detected) {
            Ok(c) => c.host == cli.host->0,
            Err(e) => e != ConfigError::MissingRequiredField(RequiredField::Host),
        },
{
}

/// Every value that the command line supplies is the value of the resolved
/// configuration; the target folder with a separator at its end. The profile
/// is the exception: the recorded profile is kept where there is one.
pub proof fn lemma_override_wins(
    cli: CliArgsView,
    file: FileConfigView,
    detected: Option<Seq<Seq<char>>>,
)
    requires
        resolved(cli, file, detected) is Ok,
    ensures
        ({
            let c = resolved(cli, file, detected)->Ok_0;
            &&& cli.host is Some ==> c.host == cli.host->0
            &&& cli.port is Some ==> c.port == cli.port->0
            &&& cli.username is Some ==> c.username == cli.username->0
            &&& cli.password is Some ==> c.password == cli.password->0
            &&& cli.key is Some ==> c.key == cli.key
            &&& cli.target is Some ==> c.target == cli.target->0
            &&& cli.target_folder is Some ==> c.target_folder == with_trailing_separator(
                cli.target_folder->0,
            )
            &&& cli.remote_folder is Some ==> c.remote_folder == cli.remote_folder->0
            &&& file.profile is Some ==> c.profile == file.profile->0
            &&& file.profile is None ==> c.profile == cli.profile
            &&& c.debug == cli.debug
            &&& c.build == cli.build
        }),
{
}

/// Each value that both sources leave out takes its default: port 22, an
/// empty password, no key, the remote folder `/tmp/binaries/`.
pub proof fn lemma_defaults(
    cli: CliArgsView,
    file: FileConfigView,
    detected: Option<Seq<Seq<char>>>,
)
    requires
        resolved(cli, file, detected) is Ok,
    ensures
        ({
            let c = resolved(cli, file, detected)->Ok_0;
            &&& cli.port is None && file.port is None ==> c.port == 22
            &&& cli.password is None && file.password is None ==> c.password.len() == 0
            &&& cli.key is None && file.key is None ==> c.key is None
            &&& cli.remote_folder is None && file.remote_folder is None ==> c.remote_folder
                == "/tmp/binaries/"@
        }),
{
}

/// A target folder given on the command line discards the recorded target
/// triple: the configuration then resolves only with a target triple from the
/// command line, and carries that one.
pub proof fn lemma_target_folder_override_discards_target(
    cli: CliArgsView,
    file: FileConfigView,
    detected: Option<Seq<Seq<char>>>,
)
    requires
        cli.target_folder is Some,
    ensures
        match resolved(cli, file, detected) {
            Ok(c) => cli.target is Some && c.target == cli.target->0,
            Err(_) => true,
        },
        cli.target is None ==> resolved(cli, file, detected) is Err,
{
}

/// Without a target triple, a binary is expected right below the directory
/// of its profile: the target folder, then `debug` or the profile's name, a
/// separator, and the name of the binary.
pub proof fn lemma_local_path_without_triple(c: ConfigView, name: Seq<char>)
    requires
        c.target.len() == 0,
    ensures
        local_path(c, name) =~= c.target_folder + (if c.debug {
            "debug"@
        } else {
            c.profile
        }) + seq!['/'] + name,
{
}

/// With a target triple, a binary is expected below the directory of the
/// triple and, in it, the directory of its profile.
pub proof fn lemma_local_path_with_triple(c: ConfigView, name: Seq<char>)
    requires
        c.target.len() > 0,
    ensures
        local_path(c, name) =~= c.target_folder + c.target + seq!['/'] + (if c.debug {
            "debug"@
        } else {
            c.profile
        }) + seq!['/'] + name,
{
}

/// Whether the command line overrides none of the recorded values.
pub open spec fn no_overrides(cli: CliArgsView) -> bool {
    &&& cli.host is None
    &&& cli.port is None
    &&& cli.username is None
    &&& cli.password is None
    &&& cli.key is None
    &&& cli.target is None
    &&& cli.target_folder is None
    &&& cli.remote_folder is None
}

/// With no override on the command line, a record that holds the three
/// required fields resolves, and the configuration reproduces the record:
/// each recorded value as it stands, each absent one by its default, the
/// target folder with a separator at its end.
pub proof fn lemma_no_overrides_reproduces_record(
    cli: CliArgsView,
    file: FileConfigView,
    detected: Option<Seq<Seq<char>>>,
)
    requires
        no_overrides(cli),
        file.host is Some,
        file.username is Some,
        file.target is Some,
    ensures
        resolved(cli, file, detected) is Ok,
        ({
            let c = resolved(cli, file, detected)->Ok_0;
            &&& c.host == file.host->0
            &&& c.port == or_default(file.port, DEFAULT_PORT)
            &&& c.username == file.username->0
            &&& c.password == or_default(file.password, Seq::<char>::empty())
            &&& c.key == file.key
            &&& c.target_folder == with_trailing_separator(file.target_folder)
            &&& c.target == file.target->0
            &&& c.remote_folder == or_default(file.remote_folder, default_remote_folder())
            &&& c.profile == or_default(file.profile, cli.profile)
        }),
{
}

/// Reading the template record back changes nothing in it: for a project in
/// an absolute directory, resolving the paths of the template gives the
/// template itself, wherever the configuration file lies.
pub proof fn lemma_template_is_located(
    current_dir: Seq<char>,
    config_file_path: Seq<char>,
    lookup: PathLookupView,
)
    requires
        has_root(current_dir),
        parent(config_file_path) is Some,
    ensures
        located(template_record(current_dir), config_file_path, lookup) == Ok::<
            FileConfigView,
            ConfigError,
        >(template_record(current_dir)),
{
    reveal_strlit("/target/");
    let t = template_record(current_dir);
    assert(t.target_folder.last() == '/');
    assert(t.target_folder[0] == current_dir[0]);
}

/// The template record, written out and read back unchanged, resolves with
/// no override to exactly its own values.
pub proof fn lemma_template_round_trip(
    current_dir: Seq<char>,
    cli: CliArgsView,
    detected: Option<Seq<Seq<char>>>,
)
    requires
        no_overrides(cli),
    ensures
        resolved(cli, template_record(current_dir), detected) is Ok,
        ({
            let t = template_record(current_dir);
            let c = resolved(cli, t, detected)->Ok_0;
            &&& c.host == t.host->0
            &&& c.port == t.port->0
            &&& c.username == t.username->0
            &&& c.password == t.password->0
            &&& c.key == t.key
            &&& c.target_folder == t.target_folder
            &&& c.target == t.target->0
            &&& c.remote_folder == t.remote_folder->0
            &&& c.profile == t.profile->0
        }),
{
    reveal_strlit("/target/");
    let t = template_record(current_dir);
    assert(t.target_folder.last() == '/');
}

} // verus!
