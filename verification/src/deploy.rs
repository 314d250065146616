//! Deploying a project, one decision at a time.
//!
//! [`DeployParameters::deploy`] runs no tool and writes no file. It is
//! handed what happened last and answers with what is to be done next.

use crate::errors::{ErrorView, TemployError};
use crate::path::{parsed, rendered, FsPath, PathView};
use vstd::prelude::*;

verus! {

/// The tool that builds images.
pub const DOCKER: &'static str = "docker";

/// What the tool that builds images is told to do.
pub const BUILD: &'static str = "build";

/// The tool that deploys applications.
pub const DOCTL: &'static str = "doctl";

/// What the tool that deploys applications works on.
pub const APPS: &'static str = "apps";

/// What the tool that deploys applications is told to do.
pub const CREATE: &'static str = "create";

/// The option that names the file which describes the application.
pub const SPEC_OPTION: &'static str = "--spec";

/// The file that describes the application to the deployment tool.
pub const DEPLOY_SPEC: &'static str = "spec.yaml";

/// The file that takes what the build of the image printed.
pub const BUILD_OUTPUT: &'static str = "build-output.txt";

/// The file that takes what the deployment printed.
pub const DEPLOY_OUTPUT: &'static str = "deploy-output.txt";

/// Holds the parameters of a deployment.
#[derive(Debug, PartialEq, Eq)]
pub struct DeployParameters {
    /// Path to the project to be deployed.
    pub to_deploy: FsPath,
}

impl View for DeployParameters {
    type V = PathView;

    open spec fn view(&self) -> PathView {
        self.to_deploy@
    }
}

/// How far a deployment has come.
#[derive(Clone, Copy, Debug, PartialEq, Eq, Structural)]
pub enum DeployState {
    /// Nothing has been done yet.
    Start,
    /// Waiting to learn whether the project exists.
    CheckingProject,
    /// Waiting for the build of the image to end.
    Building,
    /// Waiting for the log of the build to be written.
    LoggingBuild { succeeded: bool },
    /// Waiting for the deployment to end.
    Deploying,
    /// Waiting for the log of the deployment to be written.
    LoggingDeploy { succeeded: bool },
    /// The run is over: it was completed or it failed.
    Finished,
}

/// What the caller reports back.
#[derive(Debug, PartialEq, Eq)]
pub enum DeployEvent {
    /// The run begins.
    Begin,
    /// Whether the path that was asked about exists.
    Exists(bool),
    /// The tool has run: whether it reported success, and what it printed.
    CommandFinished { success: bool, stdout: Vec<u8>, stderr: Vec<u8> },
    /// The tool could not be run.
    CommandFailed,
    /// The log has been written.
    LogWritten,
    /// The log's file could not be created.
    LogCreateFailed { cause: String },
    /// The log's file was created, but could not be written.
    LogWriteFailed,
}

/// The mathematical value of a [`DeployEvent`].
pub enum DeployEventView {
    Begin,
    Exists(bool),
    CommandFinished { success: bool, stdout: Seq<u8>, stderr: Seq<u8> },
    CommandFailed,
    LogWritten,
    LogCreateFailed { cause: Seq<char> },
    LogWriteFailed,
}

impl View for DeployEvent {
    type V = DeployEventView;

    open spec fn view(&self) -> DeployEventView {
        match *self {
            DeployEvent::Begin => DeployEventView::Begin,
            DeployEvent::Exists(b) => DeployEventView::Exists(b),
            DeployEvent::CommandFinished { success, stdout, stderr } => {
                DeployEventView::CommandFinished { success, stdout: stdout@, stderr: stderr@ }
            },
            DeployEvent::CommandFailed => DeployEventView::CommandFailed,
            DeployEvent::LogWritten => DeployEventView::LogWritten,
            DeployEvent::LogCreateFailed { cause } => DeployEventView::LogCreateFailed {
                cause: cause@,
            },
            DeployEvent::LogWriteFailed => DeployEventView::LogWriteFailed,
        }
    }
}

/// What the caller is to do next.
#[derive(Debug, PartialEq, Eq)]
pub enum DeployAction {
    /// Find out whether the path exists; answer with `Exists`.
    QueryExists(FsPath),
    /// Announce the build, then run `command` (the program, then its
    /// arguments) in the working directory and capture what it prints;
    /// answer with `CommandFinished` or `CommandFailed`.
    BuildImage { command: Vec<String> },
    /// Create the file `filename` in the working directory and write
    /// `content` to it; answer with `LogWritten`, `LogCreateFailed` or
    /// `LogWriteFailed`.
    WriteLog { filename: String, content: Vec<u8> },
    /// Announce how the build ended, then announce the deployment, run
    /// `command` (the program, then its arguments) in the directory
    /// `working_dir` and capture what it prints; answer with
    /// `CommandFinished` or `CommandFailed`.
    CreateApp { command: Vec<String>, working_dir: FsPath, built: bool },
    /// Announce how the deployment ended.
    Complete { deployed: bool },
    /// Report the error.
    Abort(TemployError),
    /// The event does not answer what was asked last: nothing is to be done
    /// for it.
    Unexpected,
}

/// The mathematical value of a [`DeployAction`].
pub enum DeployActionView {
    QueryExists(PathView),
    BuildImage { command: Seq<Seq<char>> },
    WriteLog { filename: Seq<char>, content: Seq<u8> },
    CreateApp { command: Seq<Seq<char>>, working_dir: PathView, built: bool },
    Complete { deployed: bool },
    Abort(ErrorView),
    Unexpected,
}

impl View for DeployAction {
    type V = DeployActionView;

    open spec fn view(&self) -> DeployActionView {
        match *self {
            DeployAction::QueryExists(path) => DeployActionView::QueryExists(path@),
            DeployAction::BuildImage { command } => DeployActionView::BuildImage {
                command: command.deep_view(),
            },
            DeployAction::WriteLog { filename, content } => DeployActionView::WriteLog {
                filename: filename@,
                content: content@,
            },
            DeployAction::CreateApp { command, working_dir, built } => {
                DeployActionView::CreateApp {
                    command: command.deep_view(),
                    working_dir: working_dir@,
                    built,
                }
            },
            DeployAction::Complete { deployed } => DeployActionView::Complete { deployed },
            DeployAction::Abort(error) => DeployActionView::Abort(error@),
            DeployAction::Unexpected => DeployActionView::Unexpected,
        }
    }
}

/// The command that builds the image of `project`: the program, then its
/// arguments, the last of which is the text of the project's path.
pub open spec fn build_command_line(project: PathView) -> Seq<Seq<char>> {
    seq![DOCKER@, BUILD@, rendered(project)]
}

/// The command that creates the application, to be run in the project's
/// directory, where the file that describes the application is looked up:
/// the program, then its arguments.
pub open spec fn deploy_command_line() -> Seq<Seq<char>> {
    seq![DOCTL@, APPS@, CREATE@, SPEC_OPTION@, DEPLOY_SPEC@]
}

/// The words of the commands and the names of the files, letter by letter.
pub proof fn lemma_deploy_words()
    ensures
        DOCKER@ == seq!['d', 'o', 'c', 'k', 'e', 'r'],
        BUILD@ == seq!['b', 'u', 'i', 'l', 'd'],
        DOCTL@ == seq!['d', 'o', 'c', 't', 'l'],
        APPS@ == seq!['a', 'p', 'p', 's'],
        CREATE@ == seq!['c', 'r', 'e', 'a', 't', 'e'],
        SPEC_OPTION@ == seq!['-', '-', 's', 'p', 'e', 'c'],
        DEPLOY_SPEC@ == seq!['s', 'p', 'e', 'c', '.', 'y', 'a', 'm', 'l'],
        BUILD_OUTPUT@ == seq![
            'b',
            'u',
            'i',
            'l',
            'd',
            '-',
            'o',
            'u',
            't',
            'p',
            'u',
            't',
            '.',
            't',
            'x',
            't',
        ],
        DEPLOY_OUTPUT@ == seq![
            'd',
            'e',
            'p',
            'l',
            'o',
            'y',
            '-',
            'o',
            'u',
            't',
            'p',
            'u',
            't',
            '.',
            't',
            'x',
            't',
        ],
{
    reveal_strlit("docker");
    reveal_strlit("build");
    reveal_strlit("doctl");
    reveal_strlit("apps");
    reveal_strlit("create");
    reveal_strlit("--spec");
    reveal_strlit("spec.yaml");
    reveal_strlit("build-output.txt");
    reveal_strlit("deploy-output.txt");
    assert(DOCKER@ =~= seq!['d', 'o', 'c', 'k', 'e', 'r']);
    assert(BUILD@ =~= seq!['b', 'u', 'i', 'l', 'd']);
    assert(DOCTL@ =~= seq!['d', 'o', 'c', 't', 'l']);
    assert(APPS@ =~= seq!['a', 'p', 'p', 's']);
    assert(CREATE@ =~= seq!['c', 'r', 'e', 'a', 't', 'e']);
    assert(SPEC_OPTION@ =~= seq!['-', '-', 's', 'p', 'e', 'c']);
    assert(DEPLOY_SPEC@ =~= seq!['s', 'p', 'e', 'c', '.', 'y', 'a', 'm', 'l']);
    assert(BUILD_OUTPUT@ =~= seq![
        'b',
        'u',
        'i',
        'l',
        'd',
        '-',
        'o',
        'u',
        't',
        'p',
        'u',
        't',
        '.',
        't',
        'x',
        't',
    ]);
    assert(DEPLOY_OUTPUT@ =~= seq![
        'd',
        'e',
        'p',
        'l',
        'o',
        'y',
        '-',
        'o',
        'u',
        't',
        'p',
        'u',
        't',
        '.',
        't',
        'x',
        't',
    ]);
}

/// The file of a log, as a path in the working directory.
pub open spec fn log_path(filename: Seq<char>) -> PathView {
    PathView { absolute: false, segments: seq![filename] }
}

/// What a tool's run leaves for the log: what it printed as its result
/// where it reported success, and what it printed as its complaint where
/// it did not.
pub open spec fn log_content(success: bool, stdout: Seq<u8>, stderr: Seq<u8>) -> Seq<u8> {
    if success {
        stdout
    } else {
        stderr
    }
}

/// The rules of a deployment: the state that follows `state` on `event`,
/// and what the caller is to do next.
///
/// The project must exist. Its image is built by the one command of
/// [`build_command_line`] and what the build printed is logged; then the
/// application is created by the one command of [`deploy_command_line`],
/// run in the project's directory, whether or not the build reported
/// success, and what that printed is logged too. A tool that
/// cannot be run, and a log that cannot be written, end the run. An event
/// that does not answer what was asked last changes nothing.
pub open spec fn deploy_step(project: PathView, state: DeployState, event: DeployEventView) -> (
    DeployState,
    DeployActionView,
) {
    match (state, event) {
        (DeployState::Start, DeployEventView::Begin) => (
            DeployState::CheckingProject,
            DeployActionView::QueryExists(project),
        ),
        (DeployState::CheckingProject, DeployEventView::Exists(exists)) => if exists {
            (
                DeployState::Building,
                DeployActionView::BuildImage { command: build_command_line(project) },
            )
        } else {
            (
                DeployState::Finished,
                DeployActionView::Abort(ErrorView::InvalidDeploymentPath { path: project }),
            )
        },
        (DeployState::Building, DeployEventView::CommandFailed) => (
            DeployState::Finished,
            DeployActionView::Abort(ErrorView::DockerBuildFailed),
        ),
        (
            DeployState::Building,
            DeployEventView::CommandFinished { success, stdout, stderr },
        ) => (
            DeployState::LoggingBuild { succeeded: success },
            DeployActionView::WriteLog {
                filename: BUILD_OUTPUT@,
                content: log_content(success, stdout, stderr),
            },
        ),
        (DeployState::LoggingBuild { succeeded }, DeployEventView::LogWritten) => (
            DeployState::Deploying,
            DeployActionView::CreateApp {
                command: deploy_command_line(),
                working_dir: project,
                built: succeeded,
            },
        ),
        (DeployState::LoggingBuild { .. }, DeployEventView::LogCreateFailed { cause }) => (
            DeployState::Finished,
            DeployActionView::Abort(ErrorView::IOError { path: log_path(BUILD_OUTPUT@), cause }),
        ),
        (DeployState::LoggingBuild { .. }, DeployEventView::LogWriteFailed) => (
            DeployState::Finished,
            DeployActionView::Abort(ErrorView::FileWriteFail { filename: BUILD_OUTPUT@ }),
        ),
        (DeployState::Deploying, DeployEventView::CommandFailed) => (
            DeployState::Finished,
            DeployActionView::Abort(ErrorView::DODeployFailed),
        ),
        (
            DeployState::Deploying,
            DeployEventView::CommandFinished { success, stdout, stderr },
        ) => (
            DeployState::LoggingDeploy { succeeded: success },
            DeployActionView::WriteLog {
                filename: DEPLOY_OUTPUT@,
                content: log_content(success, stdout, stderr),
            },
        ),
        (DeployState::LoggingDeploy { succeeded }, DeployEventView::LogWritten) => (
            DeployState::Finished,
            DeployActionView::Complete { deployed: succeeded },
        ),
        (DeployState::LoggingDeploy { .. }, DeployEventView::LogCreateFailed { cause }) => (
            DeployState::Finished,
            DeployActionView::Abort(
                ErrorView::IOError { path: log_path(DEPLOY_OUTPUT@), cause },
            ),
        ),
        (DeployState::LoggingDeploy { .. }, DeployEventView::LogWriteFailed) => (
            DeployState::Finished,
            DeployActionView::Abort(ErrorView::FileWriteFail { filename: DEPLOY_OUTPUT@ }),
        ),
        _ => (state, DeployActionView::Unexpected),
    }
}

/// The path of the log `filename` in the working directory.
fn log_file(filename: &str) -> (r: FsPath)
    ensures
        r@ == log_path(filename@),
{
    let mut segments: Vec<String> = Vec::new();
    segments.push(String::from_str(filename));
    assert(segments.deep_view() =~= seq![filename@]);
    FsPath { absolute: false, segments }
}

/// The command that creates the application: see [`deploy_command_line`].
pub fn deploy_command() -> (r: Vec<String>)
    ensures
        r.deep_view() == deploy_command_line(),
{
    let mut command: Vec<String> = Vec::new();
    command.push(String::from_str(DOCTL));
    command.push(String::from_str(APPS));
    command.push(String::from_str(CREATE));
    command.push(String::from_str(SPEC_OPTION));
    command.push(String::from_str(DEPLOY_SPEC));
    assert(command.deep_view() =~= deploy_command_line());
    command
}

impl DeployParameters {
    /// The command that builds the project's image: see
    /// [`build_command_line`].
    pub fn build_command(&self) -> (r: Vec<String>)
        ensures
            r.deep_view() == build_command_line(self@),
    {
        let mut command: Vec<String> = Vec::new();
        command.push(String::from_str(DOCKER));
        command.push(String::from_str(BUILD));
        command.push(self.to_deploy.to_text());
        assert(command.deep_view() =~= build_command_line(self@));
        command
    }

    /// Makes the parameters from the argument of the command line, which
    /// names the project's directory.
    pub fn from_cli(project: &str) -> (r: DeployParameters)
        ensures
            r@ == parsed(project@),
    {
        DeployParameters { to_deploy: FsPath::parse(project) }
    }

    /// Takes a deployment one step further: from the state that the run is
    /// in and what happened last, to the state that follows and what is to
    /// be done next. The rules are those of [`deploy_step`].
    ///
    /// A run starts in [`DeployState::Start`] with [`DeployEvent::Begin`] and
    /// is over when the action is [`DeployAction::Complete`] or
    /// [`DeployAction::Abort`].
    pub fn deploy(&self, state: DeployState, event: DeployEvent) -> (r: (
        DeployState,
        DeployAction,
    ))
        ensures
            (r.0, r.1@) == deploy_step(self@, state, event@),
    {
        match state {
            DeployState::Start => match event {
                DeployEvent::Begin => (
                    DeployState::CheckingProject,
                    DeployAction::QueryExists(self.to_deploy.duplicate()),
                ),
                _ => (state, DeployAction::Unexpected),
            },
            DeployState::CheckingProject => match event {
                DeployEvent::Exists(true) => (
                    DeployState::Building,
                    DeployAction::BuildImage { command: self.build_command() },
                ),
                DeployEvent::Exists(false) => (
                    DeployState::Finished,
                    DeployAction::Abort(
                        TemployError::InvalidDeploymentPath { path: self.to_deploy.duplicate() },
                    ),
                ),
                _ => (state, DeployAction::Unexpected),
            },
            DeployState::Building => match event {
                DeployEvent::CommandFailed => (
                    DeployState::Finished,
                    DeployAction::Abort(TemployError::DockerBuildFailed),
                ),
                DeployEvent::CommandFinished { success, stdout, stderr } => (
                    DeployState::LoggingBuild { succeeded: success },
                    DeployAction::WriteLog {
                        filename: String::from_str(BUILD_OUTPUT),
                        content: if success {
                            stdout
                        } else {
                            stderr
                        },
                    },
                ),
                _ => (state, DeployAction::Unexpected),
            },
            DeployState::LoggingBuild { succeeded } => match event {
                DeployEvent::LogWritten => (
                    DeployState::Deploying,
                    DeployAction::CreateApp {
                        command: deploy_command(),
                        working_dir: self.to_deploy.duplicate(),
                        built: succeeded,
                    },
                ),
                DeployEvent::LogCreateFailed { cause } => (
                    DeployState::Finished,
                    DeployAction::Abort(
                        TemployError::IOError { path: log_file(BUILD_OUTPUT), cause },
                    ),
                ),
                DeployEvent::LogWriteFailed => (
                    DeployState::Finished,
                    DeployAction::Abort(
                        TemployError::FileWriteFail { filename: String::from_str(BUILD_OUTPUT) },
                    ),
                ),
                _ => (state, DeployAction::Unexpected),
            },
            DeployState::Deploying => match event {
                DeployEvent::CommandFailed => (
                    DeployState::Finished,
                    DeployAction::Abort(TemployError::DODeployFailed),
                ),
                DeployEvent::CommandFinished { success, stdout, stderr } => (
                    DeployState::LoggingDeploy { succeeded: success },
                    DeployAction::WriteLog {
                        filename: String::from_str(DEPLOY_OUTPUT),
                        content: if success {
                            stdout
                        } else {
                            stderr
                        },
                    },
                ),
                _ => (state, DeployAction::Unexpected),
            },
            DeployState::LoggingDeploy { succeeded } => match event {
                DeployEvent::LogWritten => (
                    DeployState::Finished,
                    DeployAction::Complete { deployed: succeeded },
                ),
                DeployEvent::LogCreateFailed { cause } => (
                    DeployState::Finished,
                    DeployAction::Abort(
                        TemployError::IOError { path: log_file(DEPLOY_OUTPUT), cause },
                    ),
                ),
                DeployEvent::LogWriteFailed => (
                    DeployState::Finished,
                    DeployAction::Abort(
                        TemployError::FileWriteFail { filename: String::from_str(DEPLOY_OUTPUT) },
                    ),
                ),
                _ => (state, DeployAction::Unexpected),
            },
            DeployState::Finished => (state, DeployAction::Unexpected),
        }
    }
}

} // verus!
