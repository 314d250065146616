//! What can go wrong.

use crate::path::{FsPath, PathView};
use vstd::prelude::*;

verus! {

/// All the errors that this library reports.
#[derive(Debug, PartialEq, Eq)]
pub enum TemployError {
    /// The command line named no known command.
    InvalidCLICommand,
    /// The template path is not a directory.
    InvalidTemplatePath { path: FsPath },
    /// The project to deploy does not exist.
    InvalidDeploymentPath { path: FsPath },
    /// The template path is not of the expected format.
    InvalidTemplatePathFormat { path: FsPath },
    /// The directory of the new project exists already.
    DirAlreadyExists { path: FsPath },
    /// The directory of the new project could not be created.
    FailedToCreateDir,
    /// The directory of the new project could not be brought into its
    /// canonical form.
    FailedToCanonicalizeDir,
    /// An entry of the template could not be read.
    FailedToReadEntry { source: String },
    /// An entry of the template does not lie below the template's root.
    FailedToStripPrefix,
    /// The link to the repository names no repository.
    InvalidGithubLink { link: String },
    /// The repository could not be cloned.
    GithubCloneError { source: String },
    /// The repository's host refused the credentials.
    GithubAuthenticationError,
    /// A log file could not be written.
    FileWriteFail { filename: String },
    /// The image could not be built.
    DockerBuildFailed,
    /// The application could not be deployed.
    DODeployFailed,
    /// Any other failure of an operation on the file system, with the path
    /// that it was about.
    IOError { path: FsPath, cause: String },
}

/// The mathematical value of a [`TemployError`].
pub enum ErrorView {
    InvalidCLICommand,
    InvalidTemplatePath { path: PathView },
    InvalidDeploymentPath { path: PathView },
    InvalidTemplatePathFormat { path: PathView },
    DirAlreadyExists { path: PathView },
    FailedToCreateDir,
    FailedToCanonicalizeDir,
    FailedToReadEntry { source: Seq<char> },
    FailedToStripPrefix,
    InvalidGithubLink { link: Seq<char> },
    GithubCloneError { source: Seq<char> },
    GithubAuthenticationError,
    FileWriteFail { filename: Seq<char> },
    DockerBuildFailed,
    DODeployFailed,
    IOError { path: PathView, cause: Seq<char> },
}

impl View for TemployError {
    type V = ErrorView;

    open spec fn view(&self) -> ErrorView {
        match *self {
            TemployError::InvalidCLICommand => ErrorView::InvalidCLICommand,
            TemployError::InvalidTemplatePath { path } => ErrorView::InvalidTemplatePath {
                path: path@,
            },
            TemployError::InvalidDeploymentPath { path } => ErrorView::InvalidDeploymentPath {
                path: path@,
            },
            TemployError::InvalidTemplatePathFormat { path } => ErrorView::InvalidTemplatePathFormat {
                path: path@,
            },
            TemployError::DirAlreadyExists { path } => ErrorView::DirAlreadyExists { path: path@ },
            TemployError::FailedToCreateDir => ErrorView::FailedToCreateDir,
            TemployError::FailedToCanonicalizeDir => ErrorView::FailedToCanonicalizeDir,
            TemployError::FailedToReadEntry { source } => ErrorView::FailedToReadEntry {
                source: source@,
            },
            TemployError::FailedToStripPrefix => ErrorView::FailedToStripPrefix,
            TemployError::InvalidGithubLink { link } => ErrorView::InvalidGithubLink { link: link@ },
            TemployError::GithubCloneError { source } => ErrorView::GithubCloneError {
                source: source@,
            },
            TemployError::GithubAuthenticationError => ErrorView::GithubAuthenticationError,
            TemployError::FileWriteFail { filename } => ErrorView::FileWriteFail {
                filename: filename@,
            },
            TemployError::DockerBuildFailed => ErrorView::DockerBuildFailed,
            TemployError::DODeployFailed => ErrorView::DODeployFailed,
            TemployError::IOError { path, cause } => ErrorView::IOError {
                path: path@,
                cause: cause@,
            },
        }
    }
}

} // verus!
