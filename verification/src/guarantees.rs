//! What holds of every run of the generation.

use crate::allocate::{destination_below, lemma_destination_is_a_child};
use crate::errors::{ErrorView, TemployError};
use crate::generate::{here, step, ActionView, EventView, ParametersView, StateView};
use crate::materialize::lemma_extend_strip;
use crate::name::{default_ident, name_view, resolved_name};
use crate::path::{all_normal, is_normal_segment, PathView};
use crate::text::kebab_case;
use crate::walk::{is_excluded, WalkedView};
use vstd::prelude::*;

verus! {

/// `target` lies strictly below `destination`, on a way down each of whose
/// segments names an entry of a directory, none of them the directory of
/// version control.
pub open spec fn reproduced_below(destination: PathView, target: PathView) -> bool {
    &&& target.strip_prefix(destination) matches Some(rest)
    &&& rest.len() > 0
    &&& all_normal(rest)
    &&& !is_excluded(rest)
}

/// `path` is one step below another path, by a segment that names an entry
/// of a directory: it is not a root, not a working directory, and not the
/// way up from one.
pub open spec fn is_child(path: PathView) -> bool {
    path.segments.len() > 0 && is_normal_segment(path.segments.last())
}

impl StateView {
    /// Nothing has been created or written yet in a run that is in this
    /// state.
    pub open spec fn is_untouched(self) -> bool {
        self is Start || self is ProbingTemplate || self is LocatingWorkingDir
            || self is CheckingDestination
    }

    /// The project's directory, once it has been made.
    pub open spec fn destination(self) -> Option<PathView> {
        match self {
            StateView::Walking { destination, .. } => Some(destination),
            StateView::CreatingDirectory { destination, .. } => Some(destination),
            StateView::Reading { destination, .. } => Some(destination),
            StateView::Writing { destination, .. } => Some(destination),
            _ => None,
        }
    }

    /// The directory that is being made for the project is one step below
    /// another. The project's directory, once it has been made, starts at
    /// the root, and what a state holds while an entry is being reproduced
    /// is a place for it below that directory.
    pub open spec fn wf(self) -> bool {
        match self {
            StateView::CreatingDestination { candidate, .. } => is_child(candidate),
            StateView::Canonicalizing { candidate, .. } => is_child(candidate),
            StateView::Walking { destination, .. } => destination.absolute,
            StateView::CreatingDirectory { destination, target, .. } => destination.absolute
                && reproduced_below(destination, target),
            StateView::Reading { destination, target, .. } => destination.absolute
                && reproduced_below(destination, target),
            StateView::Writing { destination, target, .. } => destination.absolute
                && reproduced_below(destination, target),
            _ => true,
        }
    }
}

impl ActionView {
    /// The path that the action creates or writes, where it does either.
    pub open spec fn changed_path(self) -> Option<PathView> {
        match self {
            ActionView::CreateDirAll(path) => Some(path),
            ActionView::CreateDir(path) => Some(path),
            ActionView::WriteFile { path, .. } => Some(path),
            _ => None,
        }
    }
}

/// Where no name and no repository is given and the template is a
/// directory, the project is named after that directory, with `-clone`
/// appended, and the path of which the run asks whether it exists is the
/// join of the parent with the kebab case of that name: the parent is the
/// target directory where one is given, and else the working directory.
pub proof fn name_follows_template(params: ParametersView, working_dir: Option<PathView>)
    requires
        params.name.is_none(),
        params.gh_repo_name.is_none(),
    ensures
        resolved_name(params.name, params.gh_repo_name, params.template_path, true) == Ok::<
            Seq<char>,
            ErrorView,
        >(params.template_path.file_name() + default_ident()),
        step(params, StateView::Start, EventView::Begin) == (
            StateView::ProbingTemplate,
            ActionView::QueryIsDirectory(params.template_path),
        ),
        ({
            let name = params.template_path.file_name() + default_ident();
            let segment = kebab_case(name);
            let (state, action) = step(
                params,
                StateView::ProbingTemplate,
                EventView::IsDirectory(true),
            );
            match params.target_dir {
                Some(parent) => action == ActionView::QueryExists(
                    destination_below(parent, segment),
                ),
                None => {
                    &&& action == ActionView::QueryWorkingDirectory
                    &&& step(params, state, EventView::WorkingDirectory(working_dir)).1
                        == ActionView::QueryExists(
                        destination_below(
                            match working_dir {
                                Some(dir) => dir,
                                None => here(),
                            },
                            segment,
                        ),
                    )
                },
            }
        }),
{
}

/// Of every name it is asked whether the path exists that the join of the
/// parent with the name's kebab case gives; for a name whose kebab case is
/// empty that path is the parent itself. Where the path exists, the run
/// ends with the error that says so. Where it is free, a directory is
/// created there only if the kebab case names an entry of a directory, and
/// then it lies one step below the parent; else the run ends with the error
/// that the directory cannot be created, and nothing is created. So the
/// directory in which a project is made is never taken for the project's
/// own.
pub proof fn project_directory_is_a_child(
    params: ParametersView,
    name: Seq<char>,
    parent: PathView,
)
    ensures
        ({
            let segment = kebab_case(name);
            let candidate = destination_below(parent, segment);
            let (state, action) = crate::generate::located(name, parent);
            &&& state == StateView::CheckingDestination { name, candidate }
            &&& action == ActionView::QueryExists(candidate)
            &&& segment.len() == 0 ==> candidate == parent
            &&& step(params, state, EventView::Exists(true)) == (
                StateView::Finished,
                ActionView::Abort(ErrorView::DirAlreadyExists { path: candidate }),
            )
            &&& if is_normal_segment(segment) {
                &&& step(params, state, EventView::Exists(false)) == (
                    StateView::CreatingDestination { name, candidate },
                    ActionView::CreateDirAll(candidate),
                )
                &&& candidate != parent
                &&& candidate.strip_prefix(parent) == Some(seq![segment])
                &&& is_child(candidate)
            } else {
                step(params, state, EventView::Exists(false)) == (
                    StateView::Finished,
                    ActionView::Abort(ErrorView::FailedToCreateDir),
                )
            }
        }),
{
    lemma_destination_is_a_child(parent, kebab_case(name));
}

/// The run says that the project's directory exists already if and only if
/// the caller has just answered that the path asked about exists, and then
/// it names that path.
pub proof fn refused_exactly_when_destination_exists(
    params: ParametersView,
    state: StateView,
    event: EventView,
    path: PathView,
)
    ensures
        step(params, state, event).1 == ActionView::Abort(ErrorView::DirAlreadyExists { path })
            <==> (state matches StateView::CheckingDestination { candidate, .. } && candidate
            == path && event == EventView::Exists(true)),
{
}

/// Once the caller has answered that the path for the project's directory
/// is free, the making of that directory can fail in two ways only: the
/// directory cannot be created, or its canonical form cannot be found.
pub proof fn free_destination_fails_in_two_ways(
    params: ParametersView,
    state: StateView,
    event: EventView,
    error: ErrorView,
)
    requires
        (state is CheckingDestination && event == EventView::Exists(false))
            || state is CreatingDestination || state is Canonicalizing,
        step(params, state, event).1 == ActionView::Abort(error),
    ensures
        error == ErrorView::FailedToCreateDir || error == ErrorView::FailedToCanonicalizeDir,
{
}

/// The same inputs give the same name: two results of resolving a name
/// that both meet the contract of [`crate::name::resolve`] for the same
/// inputs are equal, and so are their kebab cases.
pub proof fn naming_is_repeatable(
    explicit_name: Option<Seq<char>>,
    source_identifier: Option<Seq<char>>,
    template_root: PathView,
    template_is_dir: bool,
    first: Result<String, TemployError>,
    second: Result<String, TemployError>,
)
    requires
        name_view(first) == resolved_name(
            explicit_name,
            source_identifier,
            template_root,
            template_is_dir,
        ),
        name_view(second) == resolved_name(
            explicit_name,
            source_identifier,
            template_root,
            template_is_dir,
        ),
    ensures
        name_view(first) == name_view(second),
        first matches Ok(a) ==> second matches Ok(b) && a@ == b@ && kebab_case(a@) == kebab_case(
            b@,
        ),
{
}

/// Where the project's directory exists already, the run ends at once with
/// the error that says so.
pub proof fn existing_destination_is_refused(
    params: ParametersView,
    name: Seq<char>,
    candidate: PathView,
)
    ensures
        step(
            params,
            StateView::CheckingDestination { name, candidate },
            EventView::Exists(true),
        ) == (
            StateView::Finished,
            ActionView::Abort(ErrorView::DirAlreadyExists { path: candidate }),
        ),
{
}

/// Until it is known that the project's directory does not exist, nothing
/// is created or written. A run is in an untouched state only if it was in
/// one before; from such a state the only step that asks for a change is
/// the one that follows the answer that the directory does not exist, and
/// what it asks for is that very directory.
pub proof fn nothing_changes_before_destination_is_free(
    params: ParametersView,
    state: StateView,
    event: EventView,
)
    ensures
        StateView::Start.is_untouched(),
        step(params, state, event).0.is_untouched() ==> state.is_untouched(),
        state.is_untouched() && step(params, state, event).1.changed_path().is_some() ==> {
            &&& state matches StateView::CheckingDestination { candidate, .. }
            &&& event == EventView::Exists(false)
            &&& step(params, state, event).1 == ActionView::CreateDirAll(candidate)
        },
{
}

/// A file of the template that is not left out arrives unchanged: it is
/// read where it was found, and the bytes that were read are the bytes
/// written at the same place below the project's directory.
pub proof fn file_arrives_unchanged(
    params: ParametersView,
    name: Seq<char>,
    destination: PathView,
    walked: WalkedView,
    rest: Seq<Seq<char>>,
    content: Seq<u8>,
)
    requires
        !walked.is_dir,
        walked.path.strip_prefix(params.template_path) == Some(rest),
        rest.len() > 0,
        all_normal(rest),
        !is_excluded(rest),
    ensures
        ({
            let (reading, first) = step(
                params,
                StateView::Walking { name, destination },
                EventView::Entry(walked),
            );
            let (writing, second) = step(params, reading, EventView::FileRead(content));
            &&& first == ActionView::ReadFile(walked.path)
            &&& second == ActionView::WriteFile { path: destination.extend(rest), content }
            &&& step(params, writing, EventView::Succeeded) == (
                StateView::Walking { name, destination },
                ActionView::NextEntry,
            )
        }),
{
}

/// Nothing that is left out reaches the project's directory. Once that
/// directory is made it stays the same for the rest of the run, and
/// whatever is created or written from then on lies strictly below it, at
/// a place no segment of which is the directory of version control.
pub proof fn nothing_excluded_is_reproduced(
    params: ParametersView,
    state: StateView,
    event: EventView,
)
    requires
        state.wf(),
    ensures
        StateView::Start.wf(),
        step(params, state, event).0.wf(),
        state.destination() matches Some(destination) ==> {
            &&& step(params, state, event).0.destination() matches Some(next)
                ==> next == destination
            &&& step(params, state, event).1.changed_path() matches Some(path)
                ==> reproduced_below(destination, path)
        },
{
    if let StateView::Walking { name, destination } = state {
        if let EventView::Entry(walked) = event {
            if let Some(rest) = walked.path.strip_prefix(params.template_path) {
                lemma_extend_strip(destination, rest);
            }
        }
    }
}

/// The root of the template is no entry of its own: nothing is created,
/// read or written for it, and the run goes on with what it holds.
pub proof fn root_is_passed_over(
    params: ParametersView,
    name: Seq<char>,
    destination: PathView,
    is_dir: bool,
)
    ensures
        step(
            params,
            StateView::Walking { name, destination },
            EventView::Entry(WalkedView { path: params.template_path, is_dir }),
        ) == (StateView::Walking { name, destination }, ActionView::NextEntry),
{
    let root = params.template_path;
    assert(root.segments.subrange(0, root.segments.len() as int) =~= root.segments);
    assert(root.segments.subrange(root.segments.len() as int, root.segments.len() as int)
        =~= Seq::<Seq<char>>::empty());
}

/// An entry with the directory of version control among the segments of
/// its relative path leaves no trace: nothing is created, read or written
/// for it, and the run goes on with the traversal.
pub proof fn excluded_entry_is_passed_over(
    params: ParametersView,
    name: Seq<char>,
    destination: PathView,
    walked: WalkedView,
    rest: Seq<Seq<char>>,
)
    requires
        walked.path.strip_prefix(params.template_path) == Some(rest),
        all_normal(rest),
        is_excluded(rest),
    ensures
        ({
            let (next, action) = step(
                params,
                StateView::Walking { name, destination },
                EventView::Entry(walked),
            );
            &&& next == StateView::Walking { name, destination }
            &&& action == if walked.is_dir {
                ActionView::SkipSubtree
            } else {
                ActionView::NextEntry
            }
        }),
{
}

/// A whole run: the state that is reached from `state` when the caller
/// reports `events` one after the other, and the actions that are asked for
/// on the way, one for each event.
pub open spec fn run(params: ParametersView, state: StateView, events: Seq<EventView>) -> (
    StateView,
    Seq<ActionView>,
)
    decreases events.len(),
{
    if events.len() == 0 {
        (state, Seq::empty())
    } else {
        let (next, action) = step(params, state, events.first());
        let (last, actions) = run(params, next, events.drop_first());
        (last, seq![action] + actions)
    }
}

/// The project's directory in a run: the one that the first state on the
/// way holds that holds one.
pub open spec fn run_destination(
    params: ParametersView,
    state: StateView,
    events: Seq<EventView>,
) -> Option<PathView>
    decreases events.len(),
{
    if state.destination().is_some() || events.len() == 0 {
        state.destination()
    } else {
        run_destination(params, step(params, state, events.first()).0, events.drop_first())
    }
}

/// A run asks for one action for each event.
pub proof fn run_answers_each_event(
    params: ParametersView,
    state: StateView,
    events: Seq<EventView>,
)
    ensures
        run(params, state, events).1.len() == events.len(),
    decreases events.len(),
{
    if events.len() > 0 {
        run_answers_each_event(
            params,
            step(params, state, events.first()).0,
            events.drop_first(),
        );
    }
}

/// A run that is over stays over: whatever is reported to it, nothing is
/// asked for any more.
pub proof fn finished_run_asks_nothing(params: ParametersView, events: Seq<EventView>, i: int)
    requires
        0 <= i < events.len(),
    ensures
        run(params, StateView::Finished, events).0 == StateView::Finished,
        run(params, StateView::Finished, events).1[i] == ActionView::Unexpected,
    decreases events.len(),
{
    let rest = events.drop_first();
    run_answers_each_event(params, StateView::Finished, rest);
    if i > 0 {
        finished_run_asks_nothing(params, rest, i - 1);
    } else if rest.len() > 0 {
        finished_run_asks_nothing(params, rest, 0);
    }
}

/// From a state in which nothing has been created or written yet, nothing
/// is created or written before the caller has answered that the project's
/// directory does not exist.
pub proof fn untouched_run_waits_for_free_destination(
    params: ParametersView,
    state: StateView,
    events: Seq<EventView>,
    i: int,
)
    requires
        state.is_untouched(),
        0 <= i < events.len(),
        run(params, state, events).1[i].changed_path().is_some(),
    ensures
        exists|j: int| 0 <= j <= i && events[j] == EventView::Exists(false),
    decreases events.len(),
{
    let (next, action) = step(params, state, events.first());
    let rest = events.drop_first();
    run_answers_each_event(params, next, rest);
    if i == 0 {
        assert(events[0] == EventView::Exists(false));
    } else if next.is_untouched() {
        untouched_run_waits_for_free_destination(params, next, rest, i - 1);
        let j = choose|j: int| 0 <= j <= i - 1 && rest[j] == EventView::Exists(false);
        assert(events[j + 1] == EventView::Exists(false));
    } else if next == StateView::Finished {
        finished_run_asks_nothing(params, rest, i - 1);
    } else {
        assert(events[0] == EventView::Exists(false));
    }
}

/// In a run that starts at the start, nothing is created or written before
/// the caller has answered that the project's directory does not exist. So
/// where that directory exists, the run changes nothing at all.
pub proof fn run_changes_nothing_unless_destination_is_free(
    params: ParametersView,
    events: Seq<EventView>,
    i: int,
)
    requires
        0 <= i < events.len(),
        run(params, StateView::Start, events).1[i].changed_path().is_some(),
    ensures
        exists|j: int| 0 <= j <= i && events[j] == EventView::Exists(false),
{
    untouched_run_waits_for_free_destination(params, StateView::Start, events, i);
}

/// From any well-formed state, whatever a run creates or writes, but for
/// the project's directory itself, lies strictly below the project's
/// directory of that run, at a place no segment of which is the directory
/// of version control.
pub proof fn run_reproduces_below_destination(
    params: ParametersView,
    state: StateView,
    events: Seq<EventView>,
    i: int,
)
    requires
        state.wf(),
        0 <= i < events.len(),
        run(params, state, events).1[i] is CreateDir || run(params, state, events).1[i]
            is WriteFile,
    ensures
        run_destination(params, state, events) matches Some(destination) && destination.absolute
            && reproduced_below(
            destination,
            run(params, state, events).1[i].changed_path().unwrap(),
        ),
    decreases events.len(),
{
    let (next, action) = step(params, state, events.first());
    let rest = events.drop_first();
    nothing_excluded_is_reproduced(params, state, events.first());
    run_answers_each_event(params, next, rest);
    if i > 0 {
        if next == StateView::Finished {
            finished_run_asks_nothing(params, rest, i - 1);
        } else {
            run_reproduces_below_destination(params, next, rest, i - 1);
        }
    }
}

/// In a run that starts at the start, whatever is created or written, but
/// for the project's directory itself, lies strictly below that directory,
/// at a place no segment of which is the directory of version control.
pub proof fn run_reproduces_nothing_excluded(
    params: ParametersView,
    events: Seq<EventView>,
    i: int,
)
    requires
        0 <= i < events.len(),
        run(params, StateView::Start, events).1[i] is CreateDir || run(
            params,
            StateView::Start,
            events,
        ).1[i] is WriteFile,
    ensures
        run_destination(params, StateView::Start, events) matches Some(destination)
            && reproduced_below(
            destination,
            run(params, StateView::Start, events).1[i].changed_path().unwrap(),
        ),
{
    run_reproduces_below_destination(params, StateView::Start, events, i);
}

/// From any well-formed state, the one directory chain that a run asks to
/// create ends one step below another directory: a run never takes the
/// directory in which the project is made for the project's own.
pub proof fn run_creates_a_child(
    params: ParametersView,
    state: StateView,
    events: Seq<EventView>,
    i: int,
)
    requires
        state.wf(),
        0 <= i < events.len(),
        run(params, state, events).1[i] is CreateDirAll,
    ensures
        is_child(run(params, state, events).1[i].changed_path().unwrap()),
    decreases events.len(),
{
    let (next, action) = step(params, state, events.first());
    let rest = events.drop_first();
    nothing_excluded_is_reproduced(params, state, events.first());
    run_answers_each_event(params, next, rest);
    if i > 0 {
        run_creates_a_child(params, next, rest, i - 1);
    }
}

} // verus!
