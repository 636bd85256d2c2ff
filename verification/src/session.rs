//! One request from start to finish, as a conversation between the
//! dispatcher, which decides, and its caller, which acts: the dispatcher
//! names the next action, the caller performs it and reports what happened.
//!
//! The conversation is what guarantees that a workspace never outlives its
//! request: once a workspace exists, no answer ends the request before the
//! workspace has been given up for removal.

use crate::bot::{AceBot, AceBotView, Ownership};
use crate::error::{AceError, AceErrorView};
use crate::mode::Mode;
use crate::options::OptionsView;
use crate::output::{ExecutionResult, ExecutionResultView};
use crate::shell::{shell_invocation_spec, Invocation, InvocationView};
use crate::template::{
    content, content_spec, file_name, file_name_spec, kind, kind_spec, script,
    workspace_script_spec,
};
use crate::text::{push_str, strings_view};
use crate::workspace::{
    staging_dir, staging_dir_spec, staging_root, staging_root_spec, translate, translate_spec,
    Workspace, WorkspaceView,
};
use vstd::prelude::*;
use vstd::string::StringExecFns;

verus! {

/// How a request ended, as mathematical values.
pub type OutcomeView = Result<ExecutionResultView, AceErrorView>;

/// The view of how a request ended.
pub open spec fn outcome_view(r: Result<ExecutionResult, AceError>) -> OutcomeView {
    match r {
        Ok(x) => Ok(x@),
        Err(e) => Err(e@),
    }
}

/// What the caller is asked to do next.
#[derive(Debug)]
pub enum Action {
    /// Create the file, or empty it where it exists. Report `Done`.
    Touch { path: String },
    /// Make sure that the staging directory exists, and create one fresh
    /// directory inside it. Report `Created` with the new directory's path.
    CreateWorkspace { staging_dir: String },
    /// Hand the directories to the owner, in order; then create the file,
    /// which must not exist yet, hand it to the owner, and write the
    /// content. Report `Done`.
    Stage { owner: Ownership, directories: Vec<String>, file: String, content: String },
    /// Start the process, write its standard input and close it, and wait.
    /// The process is killed where the request is abandoned. Report
    /// `Exited`.
    Spawn(Invocation),
    /// Remove the directory with everything in it. Report `Done`.
    RemoveWorkspace { path: String },
    /// Nothing is left to do: this is how the request ended.
    Finish(Result<ExecutionResult, AceError>),
}

/// What an `Action` holds, as mathematical values.
pub enum ActionView {
    Touch { path: Seq<char> },
    CreateWorkspace { staging_dir: Seq<char> },
    Stage { owner: Ownership, directories: Seq<Seq<char>>, file: Seq<char>, content: Seq<char> },
    Spawn(InvocationView),
    RemoveWorkspace { path: Seq<char> },
    Finish(OutcomeView),
}

impl View for Action {
    type V = ActionView;

    open spec fn view(&self) -> ActionView {
        match self {
            Action::Touch { path } => ActionView::Touch { path: path@ },
            Action::CreateWorkspace { staging_dir } => ActionView::CreateWorkspace {
                staging_dir: staging_dir@,
            },
            Action::Stage { owner, directories, file, content } => ActionView::Stage {
                owner: *owner,
                directories: strings_view(directories@),
                file: file@,
                content: content@,
            },
            Action::Spawn(i) => ActionView::Spawn(i@),
            Action::RemoveWorkspace { path } => ActionView::RemoveWorkspace { path: path@ },
            Action::Finish(r) => ActionView::Finish(outcome_view(*r)),
        }
    }
}

/// What the caller reports after an action.
#[derive(Debug)]
pub enum Event {
    /// The workspace was created, at this path.
    Created(String),
    /// The action was performed.
    Done,
    /// The process ran and ended.
    Exited(ExecutionResult),
    /// The action failed; the text is the operating system's description.
    Failed(String),
}

/// What an `Event` holds, as mathematical values.
pub enum EventView {
    Created(Seq<char>),
    Done,
    Exited(ExecutionResultView),
    Failed(Seq<char>),
}

impl View for Event {
    type V = EventView;

    open spec fn view(&self) -> EventView {
        match self {
            Event::Created(p) => EventView::Created(p@),
            Event::Done => EventView::Done,
            Event::Exited(r) => EventView::Exited(r@),
            Event::Failed(e) => EventView::Failed(e@),
        }
    }
}

/// Where a request stands between two actions.
#[derive(Debug)]
pub enum Run {
    /// The reset marker is being written.
    Marking,
    /// A process runs that needs no workspace.
    Plain,
    /// The workspace is being created.
    Creating { mode: Mode, text: String },
    /// The workspace exists and the snippet is being written into it.
    Staging { mode: Mode, workspace: Workspace },
    /// The workspace exists and the sandboxed process runs.
    Running { path: String },
    /// The workspace is being removed.
    Cleaning { outcome: Result<ExecutionResult, AceError> },
    /// The request is over.
    Finished,
}

/// What a `Run` holds, as mathematical values.
pub enum RunView {
    Marking,
    Plain,
    Creating { mode: Mode, text: Seq<char> },
    Staging { mode: Mode, workspace: WorkspaceView },
    Running { path: Seq<char> },
    Cleaning { outcome: OutcomeView },
    Finished,
}

impl View for Run {
    type V = RunView;

    open spec fn view(&self) -> RunView {
        match self {
            Run::Marking => RunView::Marking,
            Run::Plain => RunView::Plain,
            Run::Creating { mode, text } => RunView::Creating { mode: *mode, text: text@ },
            Run::Staging { mode, workspace } => RunView::Staging {
                mode: *mode,
                workspace: workspace@,
            },
            Run::Running { path } => RunView::Running { path: path@ },
            Run::Cleaning { outcome } => RunView::Cleaning { outcome: outcome_view(*outcome) },
            Run::Finished => RunView::Finished,
        }
    }
}

impl RunView {
    /// The workspace that exists on disk and has not been given up for
    /// removal yet.
    pub open spec fn workspace(self) -> Option<Seq<char>> {
        match self {
            RunView::Staging { workspace, .. } => Some(workspace.host),
            RunView::Running { path } => Some(path),
            _ => None,
        }
    }
}

/// The error that answers an event which the action before it cannot have
/// caused.
pub open spec fn unexpected_spec() -> AceErrorView {
    AceErrorView::Io("unexpected event"@)
}

/// The error that a reported event stands for: the failure that it
/// describes, or the complaint that it was not expected.
pub open spec fn failure_spec(event: EventView) -> AceErrorView {
    match event {
        EventView::Failed(e) => AceErrorView::Io(e),
        _ => unexpected_spec(),
    }
}

/// The restart of the sandbox's service unit.
pub open spec fn restart_spec(o: OptionsView) -> InvocationView {
    InvocationView {
        program: "systemctl"@,
        args: seq!["restart"@, o.machine_unit],
        stdin: Seq::empty(),
    }
}

/// The directories that are handed to the unprivileged user before a
/// snippet is staged: the staging root, the mode's staging directory and the
/// workspace.
pub open spec fn owned_directories(o: OptionsView, mode: Mode, workspace: WorkspaceView) -> Seq<
    Seq<char>,
> {
    seq![
        staging_root_spec(o).host,
        staging_dir_spec(o, kind_spec(mode)).host,
        workspace.host,
    ]
}

/// The first step of a request to run a snippet.
pub open spec fn start_spec(bot: AceBotView, mode: Mode, text: Seq<char>) -> (RunView, ActionView) {
    if mode.is_file_based() {
        (
            RunView::Creating { mode, text },
            ActionView::CreateWorkspace {
                staging_dir: staging_dir_spec(bot.options, kind_spec(mode)).host,
            },
        )
    } else {
        (RunView::Plain, ActionView::Spawn(shell_invocation_spec(bot.options, mode, text)))
    }
}

/// The first step of a request to reset the sandbox.
pub open spec fn reset_spec(bot: AceBotView) -> (RunView, ActionView) {
    (RunView::Marking, ActionView::Touch { path: bot.options.reset_indicator })
}

/// What to do with a workspace that was just created at `path`.
pub open spec fn created_spec(bot: AceBotView, mode: Mode, text: Seq<char>, path: Seq<char>) -> (
    RunView,
    ActionView,
) {
    match translate_spec(staging_dir_spec(bot.options, kind_spec(mode)), path) {
        Ok(workspace) => (
            RunView::Staging { mode, workspace },
            ActionView::Stage {
                owner: bot.owner,
                directories: owned_directories(bot.options, mode, workspace),
                file: workspace.child(file_name_spec(mode)).host,
                content: content_spec(mode, text),
            },
        ),
        Err(e) => (
            RunView::Cleaning { outcome: Err(e) },
            ActionView::RemoveWorkspace { path },
        ),
    }
}

/// The next step of a request, given where it stands and what the caller
/// reports.
pub open spec fn step_spec(bot: AceBotView, run: RunView, event: EventView) -> (
    RunView,
    ActionView,
) {
    match run {
        RunView::Marking => match event {
            EventView::Done => (RunView::Plain, ActionView::Spawn(restart_spec(bot.options))),
            _ => (RunView::Finished, ActionView::Finish(Err(failure_spec(event)))),
        },
        RunView::Plain => match event {
            EventView::Exited(result) => (RunView::Finished, ActionView::Finish(Ok(result))),
            _ => (RunView::Finished, ActionView::Finish(Err(failure_spec(event)))),
        },
        RunView::Creating { mode, text } => match event {
            EventView::Created(path) => created_spec(bot, mode, text, path),
            _ => (RunView::Finished, ActionView::Finish(Err(failure_spec(event)))),
        },
        RunView::Staging { mode, workspace } => match event {
            EventView::Done => (
                RunView::Running { path: workspace.host },
                ActionView::Spawn(
                    shell_invocation_spec(
                        bot.options,
                        Mode::UserShell,
                        workspace_script_spec(mode, workspace),
                    ),
                ),
            ),
            _ => (
                RunView::Cleaning { outcome: Err(failure_spec(event)) },
                ActionView::RemoveWorkspace { path: workspace.host },
            ),
        },
        RunView::Running { path } => match event {
            EventView::Exited(result) => (
                RunView::Cleaning { outcome: Ok(result) },
                ActionView::RemoveWorkspace { path },
            ),
            _ => (
                RunView::Cleaning { outcome: Err(failure_spec(event)) },
                ActionView::RemoveWorkspace { path },
            ),
        },
        RunView::Cleaning { outcome } => (RunView::Finished, ActionView::Finish(outcome)),
        RunView::Finished => (RunView::Finished, ActionView::Finish(Err(unexpected_spec()))),
    }
}

/// The error that a reported event stands for.
fn failure(event: Event) -> (r: AceError)
    ensures
        r@ == failure_spec(event@),
{
    match event {
        Event::Failed(e) => AceError::Io(e),
        _ => AceError::Io(String::from_str("unexpected event")),
    }
}

impl AceBot {
    /// The invocation that pipes `text` to a sandboxed shell of the
    /// unprivileged user.
    fn user_shell(&self, text: &str) -> (r: Invocation)
        ensures
            r@ == shell_invocation_spec(self@.options, Mode::UserShell, text@),
    {
        match self.run_bash(Mode::UserShell, text) {
            Ok(i) => i,
            Err(_) => {
                proof {
                    assert(!Mode::UserShell.is_file_based());
                }
                unreached()
            },
        }
    }

    /// Begins a request to run `text` in the given mode, and names the
    /// first action: the sandboxed shell for the shell modes, the creation
    /// of a workspace for the others.
    pub fn run(&self, mode: Mode, text: &str) -> (r: (Run, Action))
        ensures
            (r.0@, r.1@) == start_spec(self@, mode, text@),
    {
        match self.run_bash(mode, text) {
            Ok(invocation) => (Run::Plain, Action::Spawn(invocation)),
            Err(_) => {
                let staging = staging_dir(self.options(), kind(mode));
                (
                    Run::Creating { mode, text: String::from_str(text) },
                    Action::CreateWorkspace { staging_dir: staging.host },
                )
            },
        }
    }

    /// Begins a request to evaluate a Nix expression.
    pub fn run_nix(&self, expr: &str) -> (r: (Run, Action))
        ensures
            (r.0@, r.1@) == start_spec(self@, Mode::NixEval, expr@),
    {
        self.run(Mode::NixEval, expr)
    }

    /// Begins a request to reset the sandbox, and names the first action:
    /// writing the marker file at the configured path.
    pub fn reset(&self) -> (r: (Run, Action))
        ensures
            (r.0@, r.1@) == reset_spec(self@),
    {
        (Run::Marking, Action::Touch { path: self.options().reset_indicator.clone() })
    }

    /// What to do with a workspace that was just created at `path`.
    fn created(&self, mode: Mode, text: String, path: String) -> (r: (Run, Action))
        ensures
            (r.0@, r.1@) == created_spec(self@, mode, text@, path@),
    {
        let staging = staging_dir(self.options(), kind(mode));
        match translate(&staging, path.as_str()) {
            Ok(workspace) => {
                let mut directories: Vec<String> = Vec::new();
                assert(strings_view(directories@) =~= Seq::empty());
                push_str(&mut directories, staging_root(self.options()).host.as_str());
                push_str(&mut directories, staging.host.as_str());
                push_str(&mut directories, workspace.host.as_str());
                assert(strings_view(directories@) =~= owned_directories(
                    self@.options,
                    mode,
                    workspace@,
                ));
                let file = workspace.child(file_name(mode)).host;
                let action = Action::Stage {
                    owner: self.owner(),
                    directories,
                    file,
                    content: content(mode, text.as_str()),
                };
                (Run::Staging { mode, workspace }, action)
            },
            Err(e) => (Run::Cleaning { outcome: Err(e) }, Action::RemoveWorkspace { path }),
        }
    }

    /// Takes the caller's report on the last action and names the next one.
    pub fn advance(&self, run: Run, event: Event) -> (r: (Run, Action))
        ensures
            (r.0@, r.1@) == step_spec(self@, run@, event@),
    {
        match run {
            Run::Marking => match event {
                Event::Done => {
                    let mut args: Vec<String> = Vec::new();
                    assert(strings_view(args@) =~= Seq::empty());
                    push_str(&mut args, "restart");
                    push_str(&mut args, self.options().machine_unit.as_str());
                    let invocation = Invocation {
                        program: String::from_str("systemctl"),
                        args,
                        stdin: String::new(),
                    };
                    assert(invocation@.args =~= restart_spec(self@.options).args);
                    (Run::Plain, Action::Spawn(invocation))
                },
                other => (Run::Finished, Action::Finish(Err(failure(other)))),
            },
            Run::Plain => match event {
                Event::Exited(result) => (Run::Finished, Action::Finish(Ok(result))),
                other => (Run::Finished, Action::Finish(Err(failure(other)))),
            },
            Run::Creating { mode, text } => match event {
                Event::Created(path) => self.created(mode, text, path),
                other => (Run::Finished, Action::Finish(Err(failure(other)))),
            },
            Run::Staging { mode, workspace } => match event {
                Event::Done => {
                    let file = workspace.child(file_name(mode));
                    let text = script(mode, workspace.guest.as_str(), file.guest.as_str());
                    let invocation = self.user_shell(text.as_str());
                    (Run::Running { path: workspace.host }, Action::Spawn(invocation))
                },
                other => (
                    Run::Cleaning { outcome: Err(failure(other)) },
                    Action::RemoveWorkspace { path: workspace.host },
                ),
            },
            Run::Running { path } => match event {
                Event::Exited(result) => (
                    Run::Cleaning { outcome: Ok(result) },
                    Action::RemoveWorkspace { path },
                ),
                other => (
                    Run::Cleaning { outcome: Err(failure(other)) },
                    Action::RemoveWorkspace { path },
                ),
            },
            Run::Cleaning { outcome } => (Run::Finished, Action::Finish(outcome)),
            Run::Finished => (
                Run::Finished,
                Action::Finish(Err(AceError::Io(String::from_str("unexpected event")))),
            ),
        }
    }
}

impl RunView {
    /// Whether a request can stand here: only a mode that stages a file has
    /// a workspace, and a request that is being cleaned up ended in a
    /// result, in a failure of the operating system or in a path that could
    /// not be translated.
    pub open spec fn reachable(self) -> bool {
        match self {
            RunView::Creating { mode, .. } => mode.is_file_based(),
            RunView::Staging { mode, .. } => mode.is_file_based(),
            RunView::Cleaning { outcome } => outcome matches Err(e) ==> e is Io || e
                is PathTranslation,
            _ => true,
        }
    }

    /// An upper bound on the number of actions that are still to come.
    pub open spec fn remaining(self) -> nat {
        match self {
            RunView::Creating { .. } => 4,
            RunView::Staging { .. } => 3,
            RunView::Marking => 2,
            RunView::Running { .. } => 2,
            RunView::Plain => 1,
            RunView::Cleaning { .. } => 1,
            RunView::Finished => 0,
        }
    }
}

/// Every request begins in a place where a request can stand, and every
/// step leads to one.
pub proof fn lemma_reachable(bot: AceBotView, mode: Mode, text: Seq<char>, run: RunView, event: EventView)
    ensures
        start_spec(bot, mode, text).0.reachable(),
        reset_spec(bot).0.reachable(),
        run.reachable() ==> step_spec(bot, run, event).0.reachable(),
{
}

/// A request ends in a result that a process left behind, in a failure of
/// the operating system, or in a path that could not be translated, and in
/// nothing else. The result is the one that the caller reported.
pub proof fn lemma_outcomes(bot: AceBotView, run: RunView, event: EventView)
    requires
        run.reachable(),
    ensures
        step_spec(bot, run, event).1 matches ActionView::Finish(Err(e)) ==> e is Io || e
            is PathTranslation,
        step_spec(bot, run, event).1 matches ActionView::Finish(Ok(result)) ==> event
            == EventView::Exited(result) || run == (RunView::Cleaning { outcome: Ok(result) }),
        step_spec(bot, run, event).0 matches RunView::Cleaning { outcome: Ok(result) } ==> event
            == EventView::Exited(result),
{
}

/// A workspace never outlives its request. While a workspace exists, no
/// step ends the request, and the only step that lets go of the workspace
/// is the one that asks for its removal. A workspace that was just created
/// is either kept or removed at once.
pub proof fn lemma_workspace_removed(bot: AceBotView, run: RunView, event: EventView)
    ensures
        run.workspace() is Some ==> !(step_spec(bot, run, event).1 is Finish),
        run.workspace() matches Some(path) ==> step_spec(bot, run, event).0.workspace() == Some(
            path,
        ) || step_spec(bot, run, event).1 == (ActionView::RemoveWorkspace { path }),
        event matches EventView::Created(path) ==> (run is Creating ==> step_spec(
            bot,
            run,
            event,
        ).0.workspace() == Some(path) || step_spec(bot, run, event).1 == (
        ActionView::RemoveWorkspace { path })),
        step_spec(bot, run, event).0.workspace() matches Some(path) ==> run.workspace() == Some(
            path,
        ) || (run is Creating && event == EventView::Created(path)),
        step_spec(bot, run, event).1 is RemoveWorkspace ==> step_spec(bot, run, event).0
            is Cleaning,
        run is Cleaning ==> step_spec(bot, run, event).1 is Finish,
{
}

/// Every request ends: each step leaves fewer actions to come, and the
/// request is over exactly when the action says so. No request takes more
/// than five actions.
pub proof fn lemma_progress(bot: AceBotView, mode: Mode, text: Seq<char>, run: RunView, event: EventView)
    ensures
        !(run is Finished) ==> step_spec(bot, run, event).0.remaining() < run.remaining(),
        step_spec(bot, run, event).1 is Finish <==> step_spec(bot, run, event).0 is Finished,
        start_spec(bot, mode, text).0.remaining() <= 4,
        reset_spec(bot).0.remaining() <= 4,
        !(start_spec(bot, mode, text).1 is Finish),
        !(reset_spec(bot).1 is Finish),
{
}

/// One request starts at most one process. A process is started by the
/// first step of a shell request, or by the step that follows the writing
/// of the reset marker or the staging of a snippet; after that the request
/// only waits, cleans up and ends. A staged snippet always runs as the
/// unprivileged user, and only once its file has been handed over.
pub proof fn lemma_one_process(bot: AceBotView, mode: Mode, text: Seq<char>, run: RunView, event: EventView)
    ensures
        step_spec(bot, run, event).1 is Spawn ==> (run is Marking || run is Staging) && event
            is Done,
        step_spec(bot, run, event).1 is Spawn ==> step_spec(bot, run, event).0 is Plain
            || step_spec(bot, run, event).0 is Running,
        run is Plain || run is Running ==> !(step_spec(bot, run, event).0 is Marking)
            && !(step_spec(bot, run, event).0 is Staging),
        run is Cleaning || run is Finished ==> step_spec(bot, run, event).0 is Finished,
        start_spec(bot, mode, text).1 is Spawn <==> !mode.is_file_based(),
        run matches RunView::Staging { mode: m, workspace: w } ==> (event is Done ==> step_spec(
            bot,
            run,
            event,
        ).1 == ActionView::Spawn(
            shell_invocation_spec(bot.options, Mode::UserShell, workspace_script_spec(m, w)),
        )),
{
}

/// The reset marker is written once per reset, at the configured path, and
/// by nothing else: a reset begins with it, and neither the start of a
/// snippet nor any later step asks for it.
pub proof fn lemma_marker_once(bot: AceBotView, mode: Mode, text: Seq<char>, run: RunView, event: EventView)
    ensures
        reset_spec(bot).1 == (ActionView::Touch { path: bot.options.reset_indicator }),
        !(start_spec(bot, mode, text).1 is Touch),
        !(step_spec(bot, run, event).1 is Touch),
        !(step_spec(bot, run, event).0 is Marking),
{
}

/// Where a request stands after the caller has made a series of reports,
/// and every action that was named on the way, the first included.
pub open spec fn after(bot: AceBotView, first: (RunView, ActionView), events: Seq<EventView>) -> (
    RunView,
    Seq<ActionView>,
)
    decreases events.len(),
{
    if events.len() == 0 {
        (first.0, seq![first.1])
    } else {
        let before = after(bot, first, events.drop_last());
        let next = step_spec(bot, before.0, events.last());
        (next.0, before.1.push(next.1))
    }
}

/// Whatever the caller reports, and in whatever order: once a workspace has
/// been created for a request, the workspace is still held by the request or
/// its removal has been asked for. A request that is over holds nothing, so
/// that by then the removal has been asked for.
pub proof fn lemma_no_orphan(
    bot: AceBotView,
    mode: Mode,
    text: Seq<char>,
    events: Seq<EventView>,
    path: Seq<char>,
)
    requires
        mode.is_file_based(),
        events.len() > 0,
        events[0] == EventView::Created(path),
    ensures
        after(bot, start_spec(bot, mode, text), events).0.workspace() == Some(path) || exists|
            j: int,
        |
            0 <= j < after(bot, start_spec(bot, mode, text), events).1.len() && #[trigger] after(
                bot,
                start_spec(bot, mode, text),
                events,
            ).1[j] == (ActionView::RemoveWorkspace { path }),
        after(bot, start_spec(bot, mode, text), events).0 is Finished ==> exists|j: int|
            0 <= j < after(bot, start_spec(bot, mode, text), events).1.len() && #[trigger] after(
                bot,
                start_spec(bot, mode, text),
                events,
            ).1[j] == (ActionView::RemoveWorkspace { path }),
    decreases events.len(),
{
    let first = start_spec(bot, mode, text);
    let now = after(bot, first, events);
    let earlier = events.drop_last();
    let before = after(bot, first, earlier);
    let next = step_spec(bot, before.0, events.last());
    assert(now.0 == next.0 && now.1 == before.1.push(next.1));
    if events.len() == 1 {
        assert(earlier.len() == 0);
        assert(before.0 == first.0);
        assert(events.last() == EventView::Created(path));
        if now.0.workspace() != Some(path) {
            assert(now.1[1] == (ActionView::RemoveWorkspace { path }));
        }
    } else {
        assert(earlier[0] == events[0]);
        lemma_no_orphan(bot, mode, text, earlier, path);
        lemma_workspace_removed(bot, before.0, events.last());
        if before.0.workspace() == Some(path) {
            if now.0.workspace() != Some(path) {
                assert(now.1[before.1.len() as int] == (ActionView::RemoveWorkspace { path }));
            }
        } else {
            let j = choose|j: int|
                0 <= j < before.1.len() && #[trigger] before.1[j] == (ActionView::RemoveWorkspace {
                    path,
                });
            assert(now.1[j] == (ActionView::RemoveWorkspace { path }));
        }
    }
}

/// After `n` reports a request has at most as many actions left as it had
/// at first, less `n`.
pub proof fn lemma_remaining(bot: AceBotView, first: (RunView, ActionView), events: Seq<EventView>)
    ensures
        after(bot, first, events).0.remaining() + events.len() <= first.0.remaining() || after(
            bot,
            first,
            events,
        ).0 is Finished,
        after(bot, first, events).1.len() == events.len() + 1,
    decreases events.len(),
{
    if events.len() > 0 {
        lemma_remaining(bot, first, events.drop_last());
        let before = after(bot, first, events.drop_last());
        lemma_progress(bot, Mode::UserShell, Seq::empty(), before.0, events.last());
    }
}

/// Every request is over after four reports at the latest, a request for a
/// shell after one, and a reset after two.
pub proof fn lemma_ends(bot: AceBotView, mode: Mode, text: Seq<char>, events: Seq<EventView>)
    ensures
        events.len() >= 4 ==> after(bot, start_spec(bot, mode, text), events).0 is Finished,
        !mode.is_file_based() && events.len() >= 1 ==> after(
            bot,
            start_spec(bot, mode, text),
            events,
        ).0 is Finished,
        events.len() >= 2 ==> after(bot, reset_spec(bot), events).0 is Finished,
{
    lemma_remaining(bot, start_spec(bot, mode, text), events);
    lemma_remaining(bot, reset_spec(bot), events);
}

} // verus!
