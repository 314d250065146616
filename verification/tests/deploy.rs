use temploy::deploy::{
    deploy_command, DeployAction, DeployEvent, DeployState, BUILD_OUTPUT, DEPLOY_OUTPUT,
    DEPLOY_SPEC,
};
use temploy::path::FsPath;
use temploy::{DeployParameters, TemployError};

fn words(list: &[&str]) -> Vec<String> {
    list.iter().map(|s| s.to_string()).collect()
}

fn project() -> DeployParameters {
    DeployParameters::from_cli("/srv/app")
}

fn finished(success: bool) -> DeployEvent {
    DeployEvent::CommandFinished {
        success,
        stdout: b"printed".to_vec(),
        stderr: b"complained".to_vec(),
    }
}

#[test]
fn parameters_hold_the_project_path() {
    assert_eq!(project(), DeployParameters { to_deploy: FsPath::parse("/srv/app") });
    assert_eq!(
        DeployParameters::from_cli("./app/"),
        DeployParameters { to_deploy: FsPath::parse("./app") }
    );
    assert_ne!(DeployParameters::from_cli(""), DeployParameters::from_cli("."));
}

#[test]
fn build_command_names_the_project() {
    assert_eq!(project().build_command(), words(&["docker", "build", "/srv/app"]));
    assert_eq!(
        DeployParameters::from_cli("projects/my app").build_command(),
        words(&["docker", "build", "projects/my app"])
    );
    assert_eq!(DeployParameters::from_cli(".").build_command(), words(&["docker", "build", "."]));
    assert_eq!(DeployParameters::from_cli("").build_command(), words(&["docker", "build", ""]));
    assert_eq!(
        DeployParameters::from_cli("./app").build_command(),
        words(&["docker", "build", "./app"])
    );
    assert_eq!(DeployParameters::from_cli("/").build_command(), words(&["docker", "build", "/"]));
}

#[test]
fn deploy_command_names_the_description() {
    assert_eq!(deploy_command(), words(&["doctl", "apps", "create", "--spec", "spec.yaml"]));
}

#[test]
fn log_files_have_fixed_names() {
    assert_eq!(DEPLOY_SPEC, "spec.yaml");
    assert_eq!(BUILD_OUTPUT, "build-output.txt");
    assert_eq!(DEPLOY_OUTPUT, "deploy-output.txt");
}

#[test]
fn deployment_runs_to_its_end() {
    let p = project();
    let (state, action) = p.deploy(DeployState::Start, DeployEvent::Begin);
    assert_eq!(state, DeployState::CheckingProject);
    assert_eq!(action, DeployAction::QueryExists(FsPath::parse("/srv/app")));
    let (state, action) = p.deploy(state, DeployEvent::Exists(true));
    assert_eq!(state, DeployState::Building);
    assert_eq!(
        action,
        DeployAction::BuildImage { command: words(&["docker", "build", "/srv/app"]) }
    );
    let (state, action) = p.deploy(state, finished(true));
    assert_eq!(state, DeployState::LoggingBuild { succeeded: true });
    assert_eq!(
        action,
        DeployAction::WriteLog {
            filename: "build-output.txt".to_string(),
            content: b"printed".to_vec(),
        }
    );
    let (state, action) = p.deploy(state, DeployEvent::LogWritten);
    assert_eq!(state, DeployState::Deploying);
    assert_eq!(
        action,
        DeployAction::CreateApp {
            command: words(&["doctl", "apps", "create", "--spec", "spec.yaml"]),
            working_dir: FsPath::parse("/srv/app"),
            built: true,
        }
    );
    let (state, action) = p.deploy(state, finished(true));
    assert_eq!(state, DeployState::LoggingDeploy { succeeded: true });
    assert_eq!(
        action,
        DeployAction::WriteLog {
            filename: "deploy-output.txt".to_string(),
            content: b"printed".to_vec(),
        }
    );
    let (state, action) = p.deploy(state, DeployEvent::LogWritten);
    assert_eq!(state, DeployState::Finished);
    assert_eq!(action, DeployAction::Complete { deployed: true });
}

#[test]
fn project_at_the_empty_path_is_asked_about_as_such() {
    let p = DeployParameters::from_cli("");
    let (state, action) = p.deploy(DeployState::Start, DeployEvent::Begin);
    assert_eq!(action, DeployAction::QueryExists(FsPath { absolute: false, segments: vec![] }));
    assert_eq!(FsPath { absolute: false, segments: vec![] }.to_text(), "");
    let (state, action) = p.deploy(state, DeployEvent::Exists(false));
    assert_eq!(state, DeployState::Finished);
    assert_eq!(
        action,
        DeployAction::Abort(TemployError::InvalidDeploymentPath { path: FsPath::parse("") })
    );
}

#[test]
fn missing_project_is_refused() {
    let p = project();
    let (state, action) = p.deploy(DeployState::CheckingProject, DeployEvent::Exists(false));
    assert_eq!(state, DeployState::Finished);
    assert_eq!(
        action,
        DeployAction::Abort(TemployError::InvalidDeploymentPath {
            path: FsPath::parse("/srv/app"),
        })
    );
}

#[test]
fn failed_build_is_logged_and_the_deployment_goes_on() {
    let p = project();
    let (state, action) = p.deploy(DeployState::Building, finished(false));
    assert_eq!(state, DeployState::LoggingBuild { succeeded: false });
    assert_eq!(
        action,
        DeployAction::WriteLog {
            filename: "build-output.txt".to_string(),
            content: b"complained".to_vec(),
        }
    );
    let (state, action) = p.deploy(state, DeployEvent::LogWritten);
    assert_eq!(state, DeployState::Deploying);
    assert_eq!(
        action,
        DeployAction::CreateApp {
            command: words(&["doctl", "apps", "create", "--spec", "spec.yaml"]),
            working_dir: FsPath::parse("/srv/app"),
            built: false,
        }
    );
}

#[test]
fn failed_deployment_is_logged() {
    let p = project();
    let (state, action) = p.deploy(DeployState::Deploying, finished(false));
    assert_eq!(state, DeployState::LoggingDeploy { succeeded: false });
    assert_eq!(
        action,
        DeployAction::WriteLog {
            filename: "deploy-output.txt".to_string(),
            content: b"complained".to_vec(),
        }
    );
    let (state, action) = p.deploy(state, DeployEvent::LogWritten);
    assert_eq!(state, DeployState::Finished);
    assert_eq!(action, DeployAction::Complete { deployed: false });
}

#[test]
fn tools_that_cannot_be_run_end_the_deployment() {
    let p = project();
    let (state, action) = p.deploy(DeployState::Building, DeployEvent::CommandFailed);
    assert_eq!(state, DeployState::Finished);
    assert_eq!(action, DeployAction::Abort(TemployError::DockerBuildFailed));
    let (state, action) = p.deploy(DeployState::Deploying, DeployEvent::CommandFailed);
    assert_eq!(state, DeployState::Finished);
    assert_eq!(action, DeployAction::Abort(TemployError::DODeployFailed));
}

#[test]
fn logs_that_cannot_be_written_end_the_deployment() {
    let p = project();
    let (state, action) =
        p.deploy(DeployState::LoggingBuild { succeeded: true }, DeployEvent::LogWriteFailed);
    assert_eq!(state, DeployState::Finished);
    assert_eq!(
        action,
        DeployAction::Abort(TemployError::FileWriteFail {
            filename: "build-output.txt".to_string(),
        })
    );
    let (state, action) =
        p.deploy(DeployState::LoggingDeploy { succeeded: false }, DeployEvent::LogWriteFailed);
    assert_eq!(state, DeployState::Finished);
    assert_eq!(
        action,
        DeployAction::Abort(TemployError::FileWriteFail {
            filename: "deploy-output.txt".to_string(),
        })
    );
}

#[test]
fn logs_that_cannot_be_created_end_the_deployment() {
    let p = project();
    let (state, action) = p.deploy(
        DeployState::LoggingBuild { succeeded: true },
        DeployEvent::LogCreateFailed { cause: "read-only".to_string() },
    );
    assert_eq!(state, DeployState::Finished);
    assert_eq!(
        action,
        DeployAction::Abort(TemployError::IOError {
            path: FsPath::parse("build-output.txt"),
            cause: "read-only".to_string(),
        })
    );
    let (state, action) = p.deploy(
        DeployState::LoggingDeploy { succeeded: true },
        DeployEvent::LogCreateFailed { cause: "read-only".to_string() },
    );
    assert_eq!(state, DeployState::Finished);
    assert_eq!(
        action,
        DeployAction::Abort(TemployError::IOError {
            path: FsPath::parse("deploy-output.txt"),
            cause: "read-only".to_string(),
        })
    );
}

#[test]
fn deployment_ignores_what_answers_nothing() {
    let p = project();
    let (state, action) = p.deploy(DeployState::Start, DeployEvent::LogWritten);
    assert_eq!(state, DeployState::Start);
    assert_eq!(action, DeployAction::Unexpected);
    let (state, action) = p.deploy(DeployState::Building, DeployEvent::Exists(true));
    assert_eq!(state, DeployState::Building);
    assert_eq!(action, DeployAction::Unexpected);
    let (state, action) = p.deploy(DeployState::Finished, DeployEvent::Begin);
    assert_eq!(state, DeployState::Finished);
    assert_eq!(action, DeployAction::Unexpected);
}
