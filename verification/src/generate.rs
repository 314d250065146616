//! Generating a project from a template, one decision at a time.
//!
//! [`GenerateParameters::generate`] never touches the file system. It is
//! handed what happened last and answers with what is to be done next; the
//! caller does it and comes back with the outcome.

use crate::allocate::{can_be_made, destination, destination_below, is_creatable};
use crate::errors::{ErrorView, TemployError};
use crate::git::{ends_with, is_repository, repository_suffix, CloneRequest, CloneRequestView};
use crate::materialize::{materialize, planned, FileOperation, OperationView};
use crate::name::{resolve, resolved_name, text_view};
use crate::path::{parsed, FsPath, PathView};
use crate::text::{hex_of, kebab_case, md5_digest, md5_hex};
use crate::walk::{classified, is_excluded, TreeEntry, WalkedEntry, WalkedView};
use vstd::prelude::*;

verus! {

/// The mathematical value of a path that may be absent.
pub open spec fn path_view(p: Option<FsPath>) -> Option<PathView> {
    match p {
        Some(path) => Some(path@),
        None => None,
    }
}

/// Holds all of the parameters for the new project that will be generated.
#[derive(Debug, PartialEq, Eq)]
pub struct GenerateParameters {
    /// The directory in which the project's directory is made; the working
    /// directory where absent.
    pub target_dir: Option<FsPath>,
    /// The directory that holds the template.
    pub template_path: FsPath,
    /// The name of the project, where one was given.
    pub name: Option<String>,
    /// The link to the repository that the template was cloned from, where
    /// it was.
    pub gh_repo_name: Option<String>,
}

/// The mathematical value of [`GenerateParameters`].
pub struct ParametersView {
    pub target_dir: Option<PathView>,
    pub template_path: PathView,
    pub name: Option<Seq<char>>,
    pub gh_repo_name: Option<Seq<char>>,
}

impl View for GenerateParameters {
    type V = ParametersView;

    open spec fn view(&self) -> ParametersView {
        ParametersView {
            target_dir: path_view(self.target_dir),
            template_path: self.template_path@,
            name: text_view(self.name),
            gh_repo_name: text_view(self.gh_repo_name),
        }
    }
}

/// The mathematical value of a request to clone that may be absent.
pub open spec fn clone_view(c: Option<CloneRequest>) -> Option<CloneRequestView> {
    match c {
        Some(request) => Some(request@),
        None => None,
    }
}

/// The path of a directory that may have been named on the command line.
pub open spec fn parsed_dir(text: Option<Seq<char>>) -> Option<PathView> {
    match text {
        Some(text) => Some(parsed(text)),
        None => None,
    }
}

/// The directory below `temp_dir` that takes the clone of the repository at
/// `template`: its name is the digest of the repository's location.
pub open spec fn checkout_dir(temp_dir: PathView, template: Seq<char>) -> PathView {
    temp_dir.extend(seq![hex_of(md5_digest(template))])
}

/// What the arguments of the command line ask for.
///
/// A template whose location ends in `.git` is a repository: it is to be
/// cloned into a directory of its own below `temp_dir`, which then holds the
/// template, and the location is kept to name the project by. Any other
/// template is the directory that its location names.
pub open spec fn from_arguments(
    template: Seq<char>,
    name: Option<Seq<char>>,
    target_directory: Option<Seq<char>>,
    temp_dir: PathView,
) -> (ParametersView, Option<CloneRequestView>) {
    if ends_with(template, repository_suffix()) {
        (
            ParametersView {
                target_dir: parsed_dir(target_directory),
                template_path: checkout_dir(temp_dir, template),
                name,
                gh_repo_name: Some(template),
            },
            Some(
                CloneRequestView { repo: template, target_dir: checkout_dir(temp_dir, template) },
            ),
        )
    } else {
        (
            ParametersView {
                target_dir: parsed_dir(target_directory),
                template_path: parsed(template),
                name,
                gh_repo_name: None,
            },
            None,
        )
    }
}

/// How far the generation of a project has come.
#[derive(Debug, PartialEq, Eq)]
pub enum GenerateState {
    /// Nothing has been done yet.
    Start,
    /// Waiting to learn whether the template is a directory.
    ProbingTemplate,
    /// Waiting to learn the working directory.
    LocatingWorkingDir { name: String },
    /// Waiting to learn whether the project's directory exists already.
    CheckingDestination { name: String, candidate: FsPath },
    /// Waiting for the project's directory to be created.
    CreatingDestination { name: String, candidate: FsPath },
    /// Waiting for the canonical form of the project's directory.
    Canonicalizing { name: String, candidate: FsPath },
    /// Waiting for the next entry of the template.
    Walking { name: String, destination: FsPath },
    /// Waiting for the directory `target` to be created.
    CreatingDirectory { name: String, destination: FsPath, target: FsPath },
    /// Waiting for the bytes of `source`, which go to `target`.
    Reading { name: String, destination: FsPath, source: FsPath, target: FsPath },
    /// Waiting for `target` to be written.
    Writing { name: String, destination: FsPath, target: FsPath },
    /// The run is over: it was completed or it failed.
    Finished,
}

/// The mathematical value of a [`GenerateState`].
pub enum StateView {
    Start,
    ProbingTemplate,
    LocatingWorkingDir { name: Seq<char> },
    CheckingDestination { name: Seq<char>, candidate: PathView },
    CreatingDestination { name: Seq<char>, candidate: PathView },
    Canonicalizing { name: Seq<char>, candidate: PathView },
    Walking { name: Seq<char>, destination: PathView },
    CreatingDirectory { name: Seq<char>, destination: PathView, target: PathView },
    Reading { name: Seq<char>, destination: PathView, source: PathView, target: PathView },
    Writing { name: Seq<char>, destination: PathView, target: PathView },
    Finished,
}

impl View for GenerateState {
    type V = StateView;

    open spec fn view(&self) -> StateView {
        match *self {
            GenerateState::Start => StateView::Start,
            GenerateState::ProbingTemplate => StateView::ProbingTemplate,
            GenerateState::LocatingWorkingDir { name } => StateView::LocatingWorkingDir {
                name: name@,
            },
            GenerateState::CheckingDestination { name, candidate } => {
                StateView::CheckingDestination { name: name@, candidate: candidate@ }
            },
            GenerateState::CreatingDestination { name, candidate } => {
                StateView::CreatingDestination { name: name@, candidate: candidate@ }
            },
            GenerateState::Canonicalizing { name, candidate } => StateView::Canonicalizing {
                name: name@,
                candidate: candidate@,
            },
            GenerateState::Walking { name, destination } => StateView::Walking {
                name: name@,
                destination: destination@,
            },
            GenerateState::CreatingDirectory { name, destination, target } => {
                StateView::CreatingDirectory {
                    name: name@,
                    destination: destination@,
                    target: target@,
                }
            },
            GenerateState::Reading { name, destination, source, target } => StateView::Reading {
                name: name@,
                destination: destination@,
                source: source@,
                target: target@,
            },
            GenerateState::Writing { name, destination, target } => StateView::Writing {
                name: name@,
                destination: destination@,
                target: target@,
            },
            GenerateState::Finished => StateView::Finished,
        }
    }
}

/// What the caller reports back.
#[derive(Debug, PartialEq, Eq)]
pub enum GenerateEvent {
    /// The run begins.
    Begin,
    /// Whether the template's path is a directory.
    IsDirectory(bool),
    /// The working directory, where it could be found.
    WorkingDirectory(Option<FsPath>),
    /// Whether the path that was asked about exists.
    Exists(bool),
    /// The operation that was asked for has been done.
    Succeeded,
    /// The operation that was asked for has failed.
    Failed { cause: String },
    /// The canonical form of the path that was asked about.
    Canonical(FsPath),
    /// The next entry of the template.
    Entry(WalkedEntry),
    /// The template has no further entry.
    WalkFinished,
    /// The bytes of the file that was to be read.
    FileRead(Vec<u8>),
}

/// The mathematical value of a [`GenerateEvent`].
pub enum EventView {
    Begin,
    IsDirectory(bool),
    WorkingDirectory(Option<PathView>),
    Exists(bool),
    Succeeded,
    Failed { cause: Seq<char> },
    Canonical(PathView),
    Entry(WalkedView),
    WalkFinished,
    FileRead(Seq<u8>),
}

impl View for GenerateEvent {
    type V = EventView;

    open spec fn view(&self) -> EventView {
        match *self {
            GenerateEvent::Begin => EventView::Begin,
            GenerateEvent::IsDirectory(b) => EventView::IsDirectory(b),
            GenerateEvent::WorkingDirectory(dir) => EventView::WorkingDirectory(path_view(dir)),
            GenerateEvent::Exists(b) => EventView::Exists(b),
            GenerateEvent::Succeeded => EventView::Succeeded,
            GenerateEvent::Failed { cause } => EventView::Failed { cause: cause@ },
            GenerateEvent::Canonical(path) => EventView::Canonical(path@),
            GenerateEvent::Entry(walked) => EventView::Entry(walked@),
            GenerateEvent::WalkFinished => EventView::WalkFinished,
            GenerateEvent::FileRead(content) => EventView::FileRead(content@),
        }
    }
}

/// What the caller is to do next.
#[derive(Debug, PartialEq, Eq)]
pub enum GenerateAction {
    /// Find out whether the path is a directory; answer with `IsDirectory`.
    QueryIsDirectory(FsPath),
    /// Find out the working directory; answer with `WorkingDirectory`.
    QueryWorkingDirectory,
    /// Find out whether the path exists; answer with `Exists`.
    QueryExists(FsPath),
    /// Create the directory and those above it that are missing; answer
    /// with `Succeeded` or `Failed`.
    CreateDirAll(FsPath),
    /// Find the canonical form of the path, which starts at the root;
    /// answer with `Canonical` or `Failed`.
    Canonicalize(FsPath),
    /// Announce that the project is being generated and start to traverse
    /// the tree below `root`, each directory before what it holds; answer
    /// with the first `Entry`, with `WalkFinished` or with `Failed`.
    StartWalk { root: FsPath },
    /// Go on with the traversal; answer as for `StartWalk`.
    NextEntry,
    /// Go on with the traversal, but pass over what the directory that was
    /// found last holds; answer as for `StartWalk`.
    SkipSubtree,
    /// Create the directory; answer with `Succeeded` or `Failed`.
    CreateDir(FsPath),
    /// Read the file; answer with `FileRead` or `Failed`.
    ReadFile(FsPath),
    /// Write the bytes to the file; answer with `Succeeded` or `Failed`.
    WriteFile { path: FsPath, content: Vec<u8> },
    /// Announce that the project `name` has been generated at `destination`.
    Complete { name: String, destination: FsPath },
    /// Report the error. What has been written so far stays.
    Abort(TemployError),
    /// The event does not answer what was asked last: nothing is to be done
    /// for it.
    Unexpected,
}

/// The mathematical value of a [`GenerateAction`].
pub enum ActionView {
    QueryIsDirectory(PathView),
    QueryWorkingDirectory,
    QueryExists(PathView),
    CreateDirAll(PathView),
    Canonicalize(PathView),
    StartWalk { root: PathView },
    NextEntry,
    SkipSubtree,
    CreateDir(PathView),
    ReadFile(PathView),
    WriteFile { path: PathView, content: Seq<u8> },
    Complete { name: Seq<char>, destination: PathView },
    Abort(ErrorView),
    Unexpected,
}

impl View for GenerateAction {
    type V = ActionView;

    open spec fn view(&self) -> ActionView {
        match *self {
            GenerateAction::QueryIsDirectory(path) => ActionView::QueryIsDirectory(path@),
            GenerateAction::QueryWorkingDirectory => ActionView::QueryWorkingDirectory,
            GenerateAction::QueryExists(path) => ActionView::QueryExists(path@),
            GenerateAction::CreateDirAll(path) => ActionView::CreateDirAll(path@),
            GenerateAction::Canonicalize(path) => ActionView::Canonicalize(path@),
            GenerateAction::StartWalk { root } => ActionView::StartWalk { root: root@ },
            GenerateAction::NextEntry => ActionView::NextEntry,
            GenerateAction::SkipSubtree => ActionView::SkipSubtree,
            GenerateAction::CreateDir(path) => ActionView::CreateDir(path@),
            GenerateAction::ReadFile(path) => ActionView::ReadFile(path@),
            GenerateAction::WriteFile { path, content } => ActionView::WriteFile {
                path: path@,
                content: content@,
            },
            GenerateAction::Complete { name, destination } => ActionView::Complete {
                name: name@,
                destination: destination@,
            },
            GenerateAction::Abort(error) => ActionView::Abort(error@),
            GenerateAction::Unexpected => ActionView::Unexpected,
        }
    }
}

/// The working directory as a relative path, `.`: for a caller that could
/// not find out where it is.
pub open spec fn here() -> PathView {
    PathView { absolute: false, segments: seq![seq!['.']] }
}

/// The name can be derived without a look at the template.
pub open spec fn name_is_given(params: ParametersView) -> bool {
    params.name.is_some() || params.gh_repo_name.is_some()
}

/// What follows once the directory is known in which the project's
/// directory is made: the question whether the path that the join of the
/// two gives exists already. It is asked for every name, also for one whose
/// kebab case is empty, for which the join gives `parent` itself.
pub open spec fn located(name: Seq<char>, parent: PathView) -> (StateView, ActionView) {
    let candidate = destination_below(parent, kebab_case(name));
    (StateView::CheckingDestination { name, candidate }, ActionView::QueryExists(candidate))
}

/// What follows once the name has been derived, or could not be.
pub open spec fn name_resolved(params: ParametersView, name: Result<Seq<char>, ErrorView>) -> (
    StateView,
    ActionView,
) {
    match name {
        Err(error) => (StateView::Finished, ActionView::Abort(error)),
        Ok(name) => match params.target_dir {
            Some(parent) => located(name, parent),
            None => (StateView::LocatingWorkingDir { name }, ActionView::QueryWorkingDirectory),
        },
    }
}

/// What follows once it is known whether the path for the project's
/// directory exists. A path that exists ends the run: nothing is merged
/// into it. A path that is free is created, where a directory can be made
/// there under the project's name; where none can, the run ends and nothing
/// is created.
pub open spec fn destination_checked(name: Seq<char>, candidate: PathView, exists: bool) -> (
    StateView,
    ActionView,
) {
    if exists {
        (StateView::Finished, ActionView::Abort(ErrorView::DirAlreadyExists { path: candidate }))
    } else if can_be_made(candidate, kebab_case(name)) {
        (StateView::CreatingDestination { name, candidate }, ActionView::CreateDirAll(candidate))
    } else {
        (StateView::Finished, ActionView::Abort(ErrorView::FailedToCreateDir))
    }
}

/// The entry is a directory below the root that is left out, so that
/// nothing of what it holds needs to be looked at.
pub open spec fn prunes(root: PathView, walked: WalkedView) -> bool {
    &&& walked.is_dir
    &&& walked.path.strip_prefix(root) matches Some(rest)
    &&& is_excluded(rest)
}

/// What follows for an entry that the traversal found.
pub open spec fn entry_found(
    params: ParametersView,
    name: Seq<char>,
    destination: PathView,
    walked: WalkedView,
) -> (StateView, ActionView) {
    match classified(params.template_path, walked) {
        Err(error) => (StateView::Finished, ActionView::Abort(error)),
        Ok(None) => (
            StateView::Walking { name, destination },
            if prunes(params.template_path, walked) {
                ActionView::SkipSubtree
            } else {
                ActionView::NextEntry
            },
        ),
        Ok(Some(entry)) => match planned(entry, destination) {
            OperationView::CreateDirectory { target } => (
                StateView::CreatingDirectory { name, destination, target },
                ActionView::CreateDir(target),
            ),
            OperationView::CopyFile { source, target } => (
                StateView::Reading { name, destination, source, target },
                ActionView::ReadFile(source),
            ),
        },
    }
}

/// The rules of a run: the state that follows `state` on `event`, and what
/// the caller is to do next.
///
/// The name is derived first, then the project's directory is made, which
/// must not exist before, must lie one step below the directory in which
/// it is made, and whose canonical form starts at the root, then
/// the template is traversed and each entry is reproduced in the order in
/// which it was found. The first failure ends the run. An event that does
/// not answer what was asked last changes nothing.
pub open spec fn step(params: ParametersView, state: StateView, event: EventView) -> (
    StateView,
    ActionView,
) {
    match (state, event) {
        (StateView::Start, EventView::Begin) => if name_is_given(params) {
            name_resolved(
                params,
                resolved_name(params.name, params.gh_repo_name, params.template_path, false),
            )
        } else {
            (StateView::ProbingTemplate, ActionView::QueryIsDirectory(params.template_path))
        },
        (StateView::ProbingTemplate, EventView::IsDirectory(is_dir)) => name_resolved(
            params,
            resolved_name(params.name, params.gh_repo_name, params.template_path, is_dir),
        ),
        (StateView::LocatingWorkingDir { name }, EventView::WorkingDirectory(dir)) => located(
            name,
            match dir {
                Some(dir) => dir,
                None => here(),
            },
        ),
        (
            StateView::CheckingDestination { name, candidate },
            EventView::Exists(exists),
        ) => destination_checked(name, candidate, exists),
        (StateView::CreatingDestination { name, candidate }, EventView::Succeeded) => (
            StateView::Canonicalizing { name, candidate },
            ActionView::Canonicalize(candidate),
        ),
        (StateView::CreatingDestination { .. }, EventView::Failed { .. }) => (
            StateView::Finished,
            ActionView::Abort(ErrorView::FailedToCreateDir),
        ),
        (
            StateView::Canonicalizing { name, .. },
            EventView::Canonical(destination),
        ) => if destination.absolute {
            (
                StateView::Walking { name, destination },
                ActionView::StartWalk { root: params.template_path },
            )
        } else {
            (StateView::Finished, ActionView::Abort(ErrorView::FailedToCanonicalizeDir))
        },
        (StateView::Canonicalizing { .. }, EventView::Failed { .. }) => (
            StateView::Finished,
            ActionView::Abort(ErrorView::FailedToCanonicalizeDir),
        ),
        (StateView::Walking { name, destination }, EventView::Entry(walked)) => entry_found(
            params,
            name,
            destination,
            walked,
        ),
        (StateView::Walking { .. }, EventView::Failed { cause }) => (
            StateView::Finished,
            ActionView::Abort(ErrorView::FailedToReadEntry { source: cause }),
        ),
        (StateView::Walking { name, destination }, EventView::WalkFinished) => (
            StateView::Finished,
            ActionView::Complete { name, destination },
        ),
        (StateView::CreatingDirectory { name, destination, .. }, EventView::Succeeded) => (
            StateView::Walking { name, destination },
            ActionView::NextEntry,
        ),
        (StateView::CreatingDirectory { target, .. }, EventView::Failed { cause }) => (
            StateView::Finished,
            ActionView::Abort(ErrorView::IOError { path: target, cause }),
        ),
        (StateView::Reading { name, destination, target, .. }, EventView::FileRead(content)) => (
            StateView::Writing { name, destination, target },
            ActionView::WriteFile { path: target, content },
        ),
        (StateView::Reading { source, .. }, EventView::Failed { cause }) => (
            StateView::Finished,
            ActionView::Abort(ErrorView::IOError { path: source, cause }),
        ),
        (StateView::Writing { name, destination, .. }, EventView::Succeeded) => (
            StateView::Walking { name, destination },
            ActionView::NextEntry,
        ),
        (StateView::Writing { target, .. }, EventView::Failed { cause }) => (
            StateView::Finished,
            ActionView::Abort(ErrorView::IOError { path: target, cause }),
        ),
        _ => (state, ActionView::Unexpected),
    }
}

/// Asks whether the path for the directory of the project `name` below
/// `parent` exists.
fn locate(name: String, parent: &FsPath) -> (r: (GenerateState, GenerateAction))
    ensures
        (r.0@, r.1@) == located(name@, parent@),
{
    let candidate = destination(parent, name.as_str());
    let asked = candidate.duplicate();
    (GenerateState::CheckingDestination { name, candidate }, GenerateAction::QueryExists(asked))
}

/// Goes on once it is known whether the path for the project's directory
/// exists.
fn checked(name: String, candidate: FsPath, exists: bool) -> (r: (GenerateState, GenerateAction))
    ensures
        (r.0@, r.1@) == destination_checked(name@, candidate@, exists),
{
    if exists {
        (
            GenerateState::Finished,
            GenerateAction::Abort(TemployError::DirAlreadyExists { path: candidate }),
        )
    } else if is_creatable(&candidate, name.as_str()) {
        let asked = candidate.duplicate();
        (
            GenerateState::CreatingDestination { name, candidate },
            GenerateAction::CreateDirAll(asked),
        )
    } else {
        (GenerateState::Finished, GenerateAction::Abort(TemployError::FailedToCreateDir))
    }
}

impl GenerateParameters {
    /// Makes the parameters from the arguments of the command line, and says
    /// whether a repository is to be cloned before the project is generated:
    /// see [`from_arguments`].
    pub fn from_cli(
        template: &str,
        name: Option<String>,
        target_directory: Option<String>,
        temp_dir: &FsPath,
    ) -> (r: (GenerateParameters, Option<CloneRequest>))
        ensures
            (r.0@, clone_view(r.1)) == from_arguments(
                template@,
                text_view(name),
                text_view(target_directory),
                temp_dir@,
            ),
    {
        let target_dir = match target_directory {
            Some(text) => Some(FsPath::parse(text.as_str())),
            None => None,
        };
        if is_repository(template) {
            let mut segment: Vec<String> = Vec::new();
            segment.push(md5_hex(template));
            assert(segment.deep_view() =~= seq![hex_of(md5_digest(template@))]);
            let template_path = temp_dir.extend(&segment);
            let request = CloneRequest {
                repo: String::from_str(template),
                target_dir: template_path.duplicate(),
            };
            (
                GenerateParameters {
                    target_dir,
                    template_path,
                    name,
                    gh_repo_name: Some(String::from_str(template)),
                },
                Some(request),
            )
        } else {
            (
                GenerateParameters {
                    target_dir,
                    template_path: FsPath::parse(template),
                    name,
                    gh_repo_name: None,
                },
                None,
            )
        }
    }

    /// Goes on once the name has been derived, or could not be.
    fn name_found(&self, name: Result<String, TemployError>) -> (r: (
        GenerateState,
        GenerateAction,
    ))
        ensures
            (r.0@, r.1@) == name_resolved(self@, crate::name::name_view(name)),
    {
        match name {
            Err(error) => (GenerateState::Finished, GenerateAction::Abort(error)),
            Ok(name) => match &self.target_dir {
                Some(parent) => locate(name, parent),
                None => (
                    GenerateState::LocatingWorkingDir { name },
                    GenerateAction::QueryWorkingDirectory,
                ),
            },
        }
    }

    /// Decides what is done for an entry that the traversal found.
    fn entry(&self, name: String, destination: FsPath, walked: WalkedEntry) -> (r: (
        GenerateState,
        GenerateAction,
    ))
        ensures
            (r.0@, r.1@) == entry_found(self@, name@, destination@, walked@),
    {
        let is_dir = walked.is_dir;
        let below = walked.path.segments.len() > self.template_path.segments.len();
        match TreeEntry::from_walked(&self.template_path, walked) {
            Err(error) => (GenerateState::Finished, GenerateAction::Abort(error)),
            Ok(None) => {
                let action = if is_dir && below {
                    GenerateAction::SkipSubtree
                } else {
                    GenerateAction::NextEntry
                };
                (GenerateState::Walking { name, destination }, action)
            },
            Ok(Some(entry)) => match materialize(entry, &destination) {
                FileOperation::CreateDirectory { target } => {
                    let asked = target.duplicate();
                    (
                        GenerateState::CreatingDirectory { name, destination, target },
                        GenerateAction::CreateDir(asked),
                    )
                },
                FileOperation::CopyFile { source, target } => {
                    let asked = source.duplicate();
                    (
                        GenerateState::Reading { name, destination, source, target },
                        GenerateAction::ReadFile(asked),
                    )
                },
            },
        }
    }

    /// Takes the generation of a project one step further: from the state
    /// that the run is in and what happened last, to the state that follows
    /// and what is to be done next. The rules are those of [`step`].
    ///
    /// A run starts in [`GenerateState::Start`] with [`GenerateEvent::Begin`]
    /// and is over when the action is [`GenerateAction::Complete`] or
    /// [`GenerateAction::Abort`].
    pub fn generate(&self, state: GenerateState, event: GenerateEvent) -> (r: (
        GenerateState,
        GenerateAction,
    ))
        ensures
            (r.0@, r.1@) == step(self@, state@, event@),
    {
        match state {
            GenerateState::Start => match event {
                GenerateEvent::Begin => {
                    if self.name.is_some() || self.gh_repo_name.is_some() {
                        self.name_found(
                            resolve(&self.name, &self.gh_repo_name, &self.template_path, false),
                        )
                    } else {
                        (
                            GenerateState::ProbingTemplate,
                            GenerateAction::QueryIsDirectory(self.template_path.duplicate()),
                        )
                    }
                },
                _ => (GenerateState::Start, GenerateAction::Unexpected),
            },
            GenerateState::ProbingTemplate => match event {
                GenerateEvent::IsDirectory(is_dir) => self.name_found(
                    resolve(&self.name, &self.gh_repo_name, &self.template_path, is_dir),
                ),
                _ => (GenerateState::ProbingTemplate, GenerateAction::Unexpected),
            },
            GenerateState::LocatingWorkingDir { name } => match event {
                GenerateEvent::WorkingDirectory(Some(dir)) => locate(name, &dir),
                GenerateEvent::WorkingDirectory(None) => {
                    proof {
                        reveal_strlit(".");
                    }
                    assert("."@ =~= seq!['.']);
                    let mut segments: Vec<String> = Vec::new();
                    segments.push(String::from_str("."));
                    let dir = FsPath { absolute: false, segments };
                    assert(dir@.segments =~= seq![seq!['.']]);
                    locate(name, &dir)
                },
                _ => (GenerateState::LocatingWorkingDir { name }, GenerateAction::Unexpected),
            },
            GenerateState::CheckingDestination { name, candidate } => match event {
                GenerateEvent::Exists(exists) => checked(name, candidate, exists),
                _ => (
                    GenerateState::CheckingDestination { name, candidate },
                    GenerateAction::Unexpected,
                ),
            },
            GenerateState::CreatingDestination { name, candidate } => match event {
                GenerateEvent::Succeeded => {
                    let asked = candidate.duplicate();
                    (
                        GenerateState::Canonicalizing { name, candidate },
                        GenerateAction::Canonicalize(asked),
                    )
                },
                GenerateEvent::Failed { .. } => (
                    GenerateState::Finished,
                    GenerateAction::Abort(TemployError::FailedToCreateDir),
                ),
                _ => (
                    GenerateState::CreatingDestination { name, candidate },
                    GenerateAction::Unexpected,
                ),
            },
            GenerateState::Canonicalizing { name, candidate } => match event {
                GenerateEvent::Canonical(destination) => {
                    if destination.absolute {
                        (
                            GenerateState::Walking { name, destination },
                            GenerateAction::StartWalk { root: self.template_path.duplicate() },
                        )
                    } else {
                        (
                            GenerateState::Finished,
                            GenerateAction::Abort(TemployError::FailedToCanonicalizeDir),
                        )
                    }
                },
                GenerateEvent::Failed { .. } => (
                    GenerateState::Finished,
                    GenerateAction::Abort(TemployError::FailedToCanonicalizeDir),
                ),
                _ => (GenerateState::Canonicalizing { name, candidate }, GenerateAction::Unexpected),
            },
            GenerateState::Walking { name, destination } => match event {
                GenerateEvent::Entry(walked) => self.entry(name, destination, walked),
                GenerateEvent::Failed { cause } => (
                    GenerateState::Finished,
                    GenerateAction::Abort(TemployError::FailedToReadEntry { source: cause }),
                ),
                GenerateEvent::WalkFinished => (
                    GenerateState::Finished,
                    GenerateAction::Complete { name, destination },
                ),
                _ => (GenerateState::Walking { name, destination }, GenerateAction::Unexpected),
            },
            GenerateState::CreatingDirectory { name, destination, target } => match event {
                GenerateEvent::Succeeded => (
                    GenerateState::Walking { name, destination },
                    GenerateAction::NextEntry,
                ),
                GenerateEvent::Failed { cause } => (
                    GenerateState::Finished,
                    GenerateAction::Abort(TemployError::IOError { path: target, cause }),
                ),
                _ => (
                    GenerateState::CreatingDirectory { name, destination, target },
                    GenerateAction::Unexpected,
                ),
            },
            GenerateState::Reading { name, destination, source, target } => match event {
                GenerateEvent::FileRead(content) => {
                    let path = target.duplicate();
                    (
                        GenerateState::Writing { name, destination, target },
                        GenerateAction::WriteFile { path, content },
                    )
                },
                GenerateEvent::Failed { cause } => (
                    GenerateState::Finished,
                    GenerateAction::Abort(TemployError::IOError { path: source, cause }),
                ),
                _ => (
                    GenerateState::Reading { name, destination, source, target },
                    GenerateAction::Unexpected,
                ),
            },
            GenerateState::Writing { name, destination, target } => match event {
                GenerateEvent::Succeeded => (
                    GenerateState::Walking { name, destination },
                    GenerateAction::NextEntry,
                ),
                GenerateEvent::Failed { cause } => (
                    GenerateState::Finished,
                    GenerateAction::Abort(TemployError::IOError { path: target, cause }),
                ),
                _ => (
                    GenerateState::Writing { name, destination, target },
                    GenerateAction::Unexpected,
                ),
            },
            GenerateState::Finished => (GenerateState::Finished, GenerateAction::Unexpected),
        }
    }
}

} // verus!
