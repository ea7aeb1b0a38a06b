//! The life of one deployment, as a state machine.
//!
//! A [`Deployment`] holds the resolved configuration and the stage that the
//! run has reached. It names the action that is due in that stage; whoever
//! drives it performs the action and reports what came of it as an
//! [`Event`], on which the deployment moves to its next stage. The stages run
//! from the optional build through connecting, authenticating, making sure
//! that the remote directory is there, and uploading one binary after the
//! other, to the closing of the session.

use crate::autobuild::{build_arguments, build_command};
use crate::config::{local_path, remote_path, Config, ConfigView};
use crate::remote::{
    affirmative, change_owner, change_owner_command, confirmation_prompt, create_directory,
    create_directory_command, creation_prompt, existence_test, existence_test_command,
    is_affirmative, public_key, public_key_path, UPLOAD_MODE,
};
use vstd::prelude::*;

verus! {

/// One step in the upload of a binary.
#[derive(Debug, Clone, Copy, PartialEq, Eq, Structural)]
pub enum UploadStep {
    /// Finding the size of the local file.
    Stat,
    /// Opening the receiving channel, with the size and the mode declared.
    OpenChannel,
    /// Writing the whole content.
    Write,
    /// Signalling the end of the stream.
    SendEof,
    /// Waiting for the peer to acknowledge the end of the stream.
    WaitEof,
    /// Closing the channel.
    Close,
    /// Waiting for the peer to acknowledge the close.
    WaitClose,
}

/// Why a deployment came to an end without success.
#[derive(Debug, Clone, Copy, PartialEq, Eq)]
pub enum DeployError {
    /// The build tool could not be run or reported a failure.
    BuildFailed,
    /// The connection to the host could not be established.
    ConnectFailed,
    /// The host did not accept the credentials.
    AuthFailed,
    /// A remote command could not be run.
    RemoteExecFailed,
    /// The operator did not agree to the creation of the remote directory.
    NotCreated,
    /// The command that creates the remote directory exited with this status.
    CreateDirectoryFailed { status: i32 },
    /// The command that changes the owner of the remote directory exited
    /// with this status.
    ChangeOwnerFailed { status: i32 },
    /// The upload of the binary at `index` failed in `step`.
    TransferFailed { index: usize, step: UploadStep },
}

/// How far a deployment has come. Each stage but the last has one action
/// that is due in it.
#[derive(Debug, Clone, Copy, PartialEq, Eq)]
pub enum Stage {
    /// The build is due.
    Building,
    /// No session yet: connecting is due.
    Disconnected,
    /// The connection stands: authenticating is due.
    Connected,
    /// The host accepted the credentials: the test for the remote directory
    /// is due.
    Authenticated,
    /// The remote directory is missing: the operator's answer is due.
    DirectoryMissing,
    /// The operator agreed: creating the remote directory is due.
    CreatingDirectory,
    /// The remote directory was created: handing it to the user is due.
    ChangingOwner,
    /// The remote directory was found: the first upload is due.
    DirectoryVerified,
    /// The remote directory was created and handed over: the first upload is
    /// due.
    DirectoryProvisioned,
    /// `step` of the upload of the binary at `index` is due; `size` is the
    /// size of the local file once it is known.
    Uploading { index: usize, step: UploadStep, size: u64 },
    /// The work is over, with `error` or without: closing the session is due.
    Closing { error: Option<DeployError> },
    /// The end: nothing is due any more.
    Closed { error: Option<DeployError> },
}

/// What came of an action.
#[derive(Debug, Clone, PartialEq, Eq)]
pub enum Event {
    /// The action succeeded.
    Done,
    /// The action could not be carried out.
    Failed,
    /// The process or remote command ran and exited with this status.
    Exited(i32),
    /// The credentials were presented; the session reports whether it is
    /// authenticated.
    Authenticated(bool),
    /// The operator answered.
    Answered(String),
    /// The local file has this many bytes.
    Size(u64),
}

/// The mathematical content of [`Event`].
pub enum EventView {
    Done,
    Failed,
    Exited(i32),
    Authenticated(bool),
    Answered(Seq<char>),
    Size(u64),
}

impl View for Event {
    type V = EventView;

    open spec fn view(&self) -> EventView {
        match self {
            Event::Done => EventView::Done,
            Event::Failed => EventView::Failed,
            Event::Exited(status) => EventView::Exited(*status),
            Event::Authenticated(accepted) => EventView::Authenticated(*accepted),
            Event::Answered(answer) => EventView::Answered(answer@),
            Event::Size(bytes) => EventView::Size(*bytes),
        }
    }
}

/// What is to be done next.
#[derive(Debug, Clone, PartialEq, Eq)]
pub enum Action {
    /// Run the build tool with these arguments; report its exit status.
    Build { arguments: Vec<String> },
    /// Open the connection to the host and set up the session.
    Connect { host: String, port: u16 },
    /// Present the key pair, with the passphrase of the private key; report
    /// whether the session is authenticated.
    AuthenticateWithKey {
        username: String,
        public_key: String,
        private_key: String,
        passphrase: String,
    },
    /// Present the password; report whether the session is authenticated.
    AuthenticateWithPassword { username: String, password: String },
    /// Run the command on the host and report its exit status: zero says
    /// that the remote directory exists.
    CheckDirectory { command: String },
    /// Put the question to the operator; report the answer.
    Confirm { prompt: String },
    /// Run the command that creates the remote directory; report its exit
    /// status.
    CreateDirectory { command: String },
    /// Run the command that hands the remote directory to the user; report
    /// its exit status.
    ChangeOwner { command: String },
    /// Open the local file and report its size.
    Stat { local_path: String },
    /// Open a channel that receives a file of `size` bytes at `remote_path`
    /// with permission bits `mode`.
    OpenChannel { remote_path: String, mode: i32, size: u64 },
    /// Write the whole content of the local file to the channel.
    Write { local_path: String },
    /// Signal the end of the stream.
    SendEof,
    /// Wait until the peer acknowledges the end of the stream.
    WaitEof,
    /// Close the channel.
    CloseChannel,
    /// Wait until the peer acknowledges the close.
    WaitClose,
    /// Close the session.
    Disconnect,
    /// Stop; the deployment ended with `error`, or well where there is none.
    Finish { error: Option<DeployError> },
}

/// The mathematical content of [`Action`].
pub enum ActionView {
    Build { arguments: Seq<Seq<char>> },
    Connect { host: Seq<char>, port: u16 },
    AuthenticateWithKey {
        username: Seq<char>,
        public_key: Seq<char>,
        private_key: Seq<char>,
        passphrase: Seq<char>,
    },
    AuthenticateWithPassword { username: Seq<char>, password: Seq<char> },
    CheckDirectory { command: Seq<char> },
    Confirm { prompt: Seq<char> },
    CreateDirectory { command: Seq<char> },
    ChangeOwner { command: Seq<char> },
    Stat { local_path: Seq<char> },
    OpenChannel { remote_path: Seq<char>, mode: i32, size: u64 },
    Write { local_path: Seq<char> },
    SendEof,
    WaitEof,
    CloseChannel,
    WaitClose,
    Disconnect,
    Finish { error: Option<DeployError> },
}

impl View for Action {
    type V = ActionView;

    open spec fn view(&self) -> ActionView {
        match self {
            Action::Build { arguments } => ActionView::Build { arguments: arguments.deep_view() },
            Action::Connect { host, port } => ActionView::Connect { host: host@, port: *port },
            Action::AuthenticateWithKey { username, public_key, private_key, passphrase } => {
                ActionView::AuthenticateWithKey {
                    username: username@,
                    public_key: public_key@,
                    private_key: private_key@,
                    passphrase: passphrase@,
                }
            },
            Action::AuthenticateWithPassword { username, password } => {
                ActionView::AuthenticateWithPassword { username: username@, password: password@ }
            },
            Action::CheckDirectory { command } => ActionView::CheckDirectory { command: command@ },
            Action::Confirm { prompt } => ActionView::Confirm { prompt: prompt@ },
            Action::CreateDirectory { command } => ActionView::CreateDirectory {
                command: command@,
            },
            Action::ChangeOwner { command } => ActionView::ChangeOwner { command: command@ },
            Action::Stat { local_path } => ActionView::Stat { local_path: local_path@ },
            Action::OpenChannel { remote_path, mode, size } => ActionView::OpenChannel {
                remote_path: remote_path@,
                mode: *mode,
                size: *size,
            },
            Action::Write { local_path } => ActionView::Write { local_path: local_path@ },
            Action::SendEof => ActionView::SendEof,
            Action::WaitEof => ActionView::WaitEof,
            Action::CloseChannel => ActionView::CloseChannel,
            Action::WaitClose => ActionView::WaitClose,
            Action::Disconnect => ActionView::Disconnect,
            Action::Finish { error } => ActionView::Finish { error: *error },
        }
    }
}

/// A stage fits a configuration when an upload it speaks of is that of a
/// binary of the configuration.
pub open spec fn fits(c: ConfigView, s: Stage) -> bool {
    s matches Stage::Uploading { index, .. } ==> index < c.binaries.len()
}

/// The stage in which a deployment starts: with the build where one is
/// called for, else with connecting.
pub open spec fn initial(c: ConfigView) -> Stage {
    if c.build {
        Stage::Building
    } else {
        Stage::Disconnected
    }
}

/// The stage in which the binary at `index` is taken up, or the session is
/// closed in good order where there is no such binary.
pub open spec fn take_up(c: ConfigView, index: int) -> Stage {
    if 0 <= index < c.binaries.len() {
        Stage::Uploading { index: index as usize, step: UploadStep::Stat, size: 0 }
    } else {
        Stage::Closing { error: None }
    }
}

/// The stage that a stage stands for: once the remote directory is there,
/// the first binary is taken up; every other stage stands for itself.
pub open spec fn settled(c: ConfigView, s: Stage) -> Stage {
    match s {
        Stage::DirectoryVerified | Stage::DirectoryProvisioned => take_up(c, 0),
        _ => s,
    }
}

/// The stage in which the session is closed after `error`.
pub open spec fn failing(error: DeployError) -> Stage {
    Stage::Closing { error: Some(error) }
}

/// The steps of one upload, in the order in which they are taken.
pub open spec fn upload_steps() -> Seq<UploadStep> {
    seq![
        UploadStep::Stat,
        UploadStep::OpenChannel,
        UploadStep::Write,
        UploadStep::SendEof,
        UploadStep::WaitEof,
        UploadStep::Close,
        UploadStep::WaitClose,
    ]
}

/// The place of `step` in [`upload_steps`].
pub open spec fn position(step: UploadStep) -> int {
    match step {
        UploadStep::Stat => 0,
        UploadStep::OpenChannel => 1,
        UploadStep::Write => 2,
        UploadStep::SendEof => 3,
        UploadStep::WaitEof => 4,
        UploadStep::Close => 5,
        UploadStep::WaitClose => 6,
    }
}

/// The stage that follows when `step` of the upload of the binary at `index`
/// came to `e`. The size is what the first step must report, and every later
/// step must succeed; then the next step is due, and after the last step the
/// next binary. Anything else ends the uploads.
pub open spec fn after_upload_step(
    c: ConfigView,
    index: usize,
    step: UploadStep,
    size: u64,
    e: EventView,
) -> Stage {
    match (step, e) {
        (UploadStep::Stat, EventView::Size(bytes)) => Stage::Uploading {
            index,
            step: UploadStep::OpenChannel,
            size: bytes,
        },
        (UploadStep::Stat, _) => failing(DeployError::TransferFailed { index, step }),
        (UploadStep::WaitClose, EventView::Done) => take_up(c, index + 1),
        (_, EventView::Done) => Stage::Uploading {
            index,
            step: upload_steps()[position(step) + 1],
            size,
        },
        _ => failing(DeployError::TransferFailed { index, step }),
    }
}

/// The stage that follows `s` on the event `e`.
pub open spec fn next_stage(c: ConfigView, s: Stage, e: EventView) -> Stage {
    match settled(c, s) {
        Stage::Building => match e {
            EventView::Exited(0) => Stage::Disconnected,
            _ => Stage::Closed { error: Some(DeployError::BuildFailed) },
        },
        Stage::Disconnected => match e {
            EventView::Done => Stage::Connected,
            _ => Stage::Closed { error: Some(DeployError::ConnectFailed) },
        },
        Stage::Connected => match e {
            EventView::Authenticated(true) => Stage::Authenticated,
            _ => failing(DeployError::AuthFailed),
        },
        Stage::Authenticated => match e {
            EventView::Exited(0) => Stage::DirectoryVerified,
            EventView::Exited(_) => Stage::DirectoryMissing,
            _ => failing(DeployError::RemoteExecFailed),
        },
        Stage::DirectoryMissing => match e {
            EventView::Answered(answer) => if affirmative(answer) {
                Stage::CreatingDirectory
            } else {
                failing(DeployError::NotCreated)
            },
            _ => failing(DeployError::NotCreated),
        },
        Stage::CreatingDirectory => match e {
            EventView::Exited(0) => Stage::ChangingOwner,
            EventView::Exited(status) => failing(DeployError::CreateDirectoryFailed { status }),
            _ => failing(DeployError::RemoteExecFailed),
        },
        Stage::ChangingOwner => match e {
            EventView::Exited(0) => Stage::DirectoryProvisioned,
            EventView::Exited(status) => failing(DeployError::ChangeOwnerFailed { status }),
            _ => failing(DeployError::RemoteExecFailed),
        },
        Stage::Uploading { index, step, size } => after_upload_step(c, index, step, size, e),
        Stage::Closing { error } => Stage::Closed { error },
        Stage::Closed { error } => Stage::Closed { error },
        Stage::DirectoryVerified | Stage::DirectoryProvisioned => s,
    }
}

/// The action that `step` of the upload of the binary `name` calls for.
pub open spec fn upload_action(
    c: ConfigView,
    name: Seq<char>,
    step: UploadStep,
    size: u64,
) -> ActionView {
    match step {
        UploadStep::Stat => ActionView::Stat { local_path: local_path(c, name) },
        UploadStep::OpenChannel => ActionView::OpenChannel {
            remote_path: remote_path(c, name),
            mode: UPLOAD_MODE,
            size,
        },
        UploadStep::Write => ActionView::Write { local_path: local_path(c, name) },
        UploadStep::SendEof => ActionView::SendEof,
        UploadStep::WaitEof => ActionView::WaitEof,
        UploadStep::Close => ActionView::CloseChannel,
        UploadStep::WaitClose => ActionView::WaitClose,
    }
}

/// How the credentials of `c` are presented: with the key pair where a key
/// is configured, the password then being the passphrase; else with the
/// password.
pub open spec fn authentication(c: ConfigView) -> ActionView {
    match c.key {
        Some(key) => ActionView::AuthenticateWithKey {
            username: c.username,
            public_key: public_key(key),
            private_key: key,
            passphrase: c.password,
        },
        None => ActionView::AuthenticateWithPassword {
            username: c.username,
            password: c.password,
        },
    }
}

/// The action that is due in stage `s`.
pub open spec fn pending(c: ConfigView, s: Stage) -> ActionView {
    match settled(c, s) {
        Stage::Building => ActionView::Build {
            arguments: build_command(c.target, c.profile, c.debug),
        },
        Stage::Disconnected => ActionView::Connect { host: c.host, port: c.port },
        Stage::Connected => authentication(c),
        Stage::Authenticated => ActionView::CheckDirectory {
            command: existence_test(c.remote_folder),
        },
        Stage::DirectoryMissing => ActionView::Confirm {
            prompt: creation_prompt(c.remote_folder),
        },
        Stage::CreatingDirectory => ActionView::CreateDirectory {
            command: create_directory(c.password, c.remote_folder),
        },
        Stage::ChangingOwner => ActionView::ChangeOwner {
            command: change_owner(c.password, c.username, c.remote_folder),
        },
        Stage::Uploading { index, step, size } => upload_action(
            c,
            c.binaries[index as int],
            step,
            size,
        ),
        Stage::Closing { error } => ActionView::Disconnect,
        Stage::Closed { error } => ActionView::Finish { error },
        Stage::DirectoryVerified | Stage::DirectoryProvisioned => ActionView::Disconnect,
    }
}

/// One deployment: its configuration and the stage it has reached.
pub struct Deployment {
    config: Config,
    stage: Stage,
}

fn upload_step_after(step: UploadStep) -> (r: UploadStep)
    requires
        step != UploadStep::WaitClose,
    ensures
        r == upload_steps()[position(step) + 1],
{
    match step {
        UploadStep::Stat => UploadStep::OpenChannel,
        UploadStep::OpenChannel => UploadStep::Write,
        UploadStep::Write => UploadStep::SendEof,
        UploadStep::SendEof => UploadStep::WaitEof,
        UploadStep::WaitEof => UploadStep::Close,
        UploadStep::Close => UploadStep::WaitClose,
        UploadStep::WaitClose => UploadStep::WaitClose,
    }
}

fn take_up_binary(config: &Config, index: usize) -> (r: Stage)
    ensures
        r == take_up(config@, index as int),
        fits(config@, r),
{
    if index < config.binaries.len() {
        Stage::Uploading { index, step: UploadStep::Stat, size: 0 }
    } else {
        Stage::Closing { error: None }
    }
}

fn settle(config: &Config, stage: Stage) -> (r: Stage)
    requires
        fits(config@, stage),
    ensures
        r == settled(config@, stage),
        fits(config@, r),
{
    match stage {
        Stage::DirectoryVerified | Stage::DirectoryProvisioned => take_up_binary(config, 0),
        _ => stage,
    }
}

fn stage_after(config: &Config, stage: Stage, event: &Event) -> (r: Stage)
    requires
        fits(config@, stage),
    ensures
        r == next_stage(config@, stage, event@),
        fits(config@, r),
{
    match settle(config, stage) {
        Stage::Building => match event {
            Event::Exited(0) => Stage::Disconnected,
            _ => Stage::Closed { error: Some(DeployError::BuildFailed) },
        },
        Stage::Disconnected => match event {
            Event::Done => Stage::Connected,
            _ => Stage::Closed { error: Some(DeployError::ConnectFailed) },
        },
        Stage::Connected => match event {
            Event::Authenticated(true) => Stage::Authenticated,
            _ => Stage::Closing { error: Some(DeployError::AuthFailed) },
        },
        Stage::Authenticated => match event {
            Event::Exited(0) => Stage::DirectoryVerified,
            Event::Exited(_) => Stage::DirectoryMissing,
            _ => Stage::Closing { error: Some(DeployError::RemoteExecFailed) },
        },
        Stage::DirectoryMissing => match event {
            Event::Answered(answer) => {
                if is_affirmative(answer.as_str()) {
                    Stage::CreatingDirectory
                } else {
                    Stage::Closing { error: Some(DeployError::NotCreated) }
                }
            },
            _ => Stage::Closing { error: Some(DeployError::NotCreated) },
        },
        Stage::CreatingDirectory => match event {
            Event::Exited(0) => Stage::ChangingOwner,
            Event::Exited(status) => Stage::Closing {
                error: Some(DeployError::CreateDirectoryFailed { status: *status }),
            },
            _ => Stage::Closing { error: Some(DeployError::RemoteExecFailed) },
        },
        Stage::ChangingOwner => match event {
            Event::Exited(0) => Stage::DirectoryProvisioned,
            Event::Exited(status) => Stage::Closing {
                error: Some(DeployError::ChangeOwnerFailed { status: *status }),
            },
            _ => Stage::Closing { error: Some(DeployError::RemoteExecFailed) },
        },
        Stage::Uploading { index, step, size } => {
            let failed = Stage::Closing {
                error: Some(DeployError::TransferFailed { index, step }),
            };
            match step {
                UploadStep::Stat => match event {
                    Event::Size(bytes) => Stage::Uploading {
                        index,
                        step: UploadStep::OpenChannel,
                        size: *bytes,
                    },
                    _ => failed,
                },
                UploadStep::WaitClose => match event {
                    Event::Done => {
                        assert(config@.binaries.len() == config.binaries.len());
                        take_up_binary(config, index + 1)
                    },
                    _ => failed,
                },
                _ => match event {
                    Event::Done => Stage::Uploading { index, step: upload_step_after(step), size },
                    _ => failed,
                },
            }
        },
        Stage::Closing { error } => Stage::Closed { error },
        Stage::Closed { error } => Stage::Closed { error },
        Stage::DirectoryVerified | Stage::DirectoryProvisioned => stage,
    }
}

fn action_in(config: &Config, stage: Stage) -> (r: Action)
    requires
        fits(config@, stage),
    ensures
        r@ == pending(config@, stage),
{
    match settle(config, stage) {
        Stage::Building => Action::Build {
            arguments: build_arguments(
                config.target.as_str(),
                config.profile.as_str(),
                config.debug,
            ),
        },
        Stage::Disconnected => Action::Connect { host: config.host.clone(), port: config.port },
        Stage::Connected => match &config.key {
            Some(key) => Action::AuthenticateWithKey {
                username: config.username.clone(),
                public_key: public_key_path(key.as_str()),
                private_key: key.clone(),
                passphrase: config.password.clone(),
            },
            None => Action::AuthenticateWithPassword {
                username: config.username.clone(),
                password: config.password.clone(),
            },
        },
        Stage::Authenticated => Action::CheckDirectory {
            command: existence_test_command(config.remote_folder.as_str()),
        },
        Stage::DirectoryMissing => Action::Confirm {
            prompt: confirmation_prompt(config.remote_folder.as_str()),
        },
        Stage::CreatingDirectory => Action::CreateDirectory {
            command: create_directory_command(
                config.password.as_str(),
                config.remote_folder.as_str(),
            ),
        },
        Stage::ChangingOwner => Action::ChangeOwner {
            command: change_owner_command(
                config.password.as_str(),
                config.username.as_str(),
                config.remote_folder.as_str(),
            ),
        },
        Stage::Uploading { index, step, size } => {
            let name = config.binaries[index].as_str();
            match step {
                UploadStep::Stat => Action::Stat { local_path: config.local_artifact_path(name) },
                UploadStep::OpenChannel => Action::OpenChannel {
                    remote_path: config.remote_artifact_path(name),
                    mode: UPLOAD_MODE,
                    size,
                },
                UploadStep::Write => Action::Write { local_path: config.local_artifact_path(name) },
                UploadStep::SendEof => Action::SendEof,
                UploadStep::WaitEof => Action::WaitEof,
                UploadStep::Close => Action::CloseChannel,
                UploadStep::WaitClose => Action::WaitClose,
            }
        },
        Stage::Closing { error } => Action::Disconnect,
        Stage::Closed { error } => Action::Finish { error },
        Stage::DirectoryVerified | Stage::DirectoryProvisioned => Action::Disconnect,
    }
}

impl Deployment {
    #[verifier::type_invariant]
    spec fn stage_fits_config(self) -> bool {
        fits(self.config@, self.stage)
    }

    /// The configuration that the deployment runs with.
    pub closed spec fn config(&self) -> ConfigView {
        self.config@
    }

    /// The stage that the deployment has reached.
    pub closed spec fn stage(&self) -> Stage {
        self.stage
    }

    /// A deployment with `config`, in its initial stage.
    pub fn new(config: Config) -> (r: Deployment)
        ensures
            r.config() == config@,
            r.stage() == initial(config@),
    {
        let stage = if config.build {
            Stage::Building
        } else {
            Stage::Disconnected
        };
        Deployment { config, stage }
    }

    /// The stage that the deployment has reached. It fits the configuration.
    pub fn current_stage(&self) -> (r: Stage)
        ensures
            r == self.stage(),
            fits(self.config(), r),
    {
        proof {
            use_type_invariant(self);
        }
        self.stage
    }

    /// The configuration that the deployment runs with.
    pub fn configuration(&self) -> (r: &Config)
        ensures
            r@ == self.config(),
    {
        &self.config
    }

    /// Whether the deployment has come to its end.
    pub fn is_finished(&self) -> (r: bool)
        ensures
            r == (self.stage() is Closed),
    {
        match self.stage {
            Stage::Closed { .. } => true,
            _ => false,
        }
    }

    /// The action that is due.
    pub fn pending_action(&self) -> (r: Action)
        ensures
            r@ == pending(self.config(), self.stage()),
    {
        proof {
            use_type_invariant(self);
        }
        action_in(&self.config, self.stage)
    }

    /// Takes note of what came of the action that was due, and moves to the
    /// stage that follows.
    pub fn advance(&mut self, event: &Event)
        ensures
            final(self).config() == old(self).config(),
            final(self).stage() == next_stage(old(self).config(), old(self).stage(), event@),
    {
        proof {
            use_type_invariant(&*self);
        }
        self.stage = stage_after(&self.config, self.stage, event);
    }

    /// Takes note of what came of the action that was due, moves to the stage
    /// that follows, and names the action that is due there.
    pub fn step(&mut self, event: &Event) -> (r: Action)
        ensures
            final(self).config() == old(self).config(),
            final(self).stage() == next_stage(old(self).config(), old(self).stage(), event@),
            r@ == pending(final(self).config(), final(self).stage()),
    {
        self.advance(event);
        self.pending_action()
    }
}

} // verus!
