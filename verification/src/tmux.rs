//! The viewer session: a named pipe under `/tmp` and a detached tmux session
//! that follows it.
//!
//! Setting a session up takes several pieces of outside work, and what is
//! done next depends on how the last piece ended. [`TmuxSession::create`]
//! therefore starts a [`SessionSetup`], which is advanced one
//! [`Outcome`] at a time until it yields the session or the reason why
//! there is none.

use vstd::prelude::*;
use vstd::string::*;
use crate::host::{
    ActionView, HostAction, Outcome, OutcomeView, WriteOutcome, WriteOutcomeView, WriteStage,
};

verus! {

/// Width of the viewer's window, in columns.
pub const VIEWER_COLUMNS: &'static str = "200";

/// Height of the viewer's window, in rows.
pub const VIEWER_ROWS: &'static str = "50";

/// A session name is a single, non-empty path segment: it holds no `/` and
/// no NUL.
pub open spec fn valid_session_name(name: Seq<char>) -> bool {
    &&& name.len() > 0
    &&& forall|i: int| 0 <= i < name.len() ==> name[i] != '/' && name[i] != '\0'
}

/// Where the pipe of the session called `name` lies.
pub open spec fn pipe_path_of(name: Seq<char>) -> Seq<char> {
    "/tmp/"@ + name + ".pipe"@
}

/// The shell command that the viewer runs: follow the pipe for ever.
pub open spec fn follow_command(name: Seq<char>) -> Seq<char> {
    "tail -f "@ + pipe_path_of(name)
}

/// Remove the session's pipe, if it is there.
pub open spec fn remove_pipe(name: Seq<char>) -> ActionView {
    ActionView::RemoveFile { path: pipe_path_of(name) }
}

/// `mkfifo <pipe>`
pub open spec fn make_pipe(name: Seq<char>) -> ActionView {
    ActionView::Run { program: "mkfifo"@, args: seq![pipe_path_of(name)], quiet: false }
}

/// `tmux kill-session -t <name>`, with its output thrown away.
pub open spec fn kill_viewer(name: Seq<char>) -> ActionView {
    ActionView::Run { program: "tmux"@, args: seq!["kill-session"@, "-t"@, name], quiet: true }
}

/// `tmux new-session -d -s <name> -x 200 -y 50 "tail -f <pipe>"`
pub open spec fn spawn_viewer(name: Seq<char>) -> ActionView {
    ActionView::Run {
        program: "tmux"@,
        args: seq![
            "new-session"@,
            "-d"@,
            "-s"@,
            name,
            "-x"@,
            VIEWER_COLUMNS@,
            "-y"@,
            VIEWER_ROWS@,
            follow_command(name),
        ],
        quiet: false,
    }
}

/// Tells whether `name` can be the name of a session.
pub fn is_valid_session_name(name: &str) -> (ok: bool)
    ensures
        ok == valid_session_name(name@),
{
    let n: usize = name.unicode_len();
    if n == 0 {
        return false;
    }
    let mut i: usize = 0;
    while i < n
        invariant
            n == name@.len(),
            i <= n,
            forall|j: int| 0 <= j < i ==> name@[j] != '/' && name@[j] != '\0',
        decreases n - i,
    {
        let c = name.get_char(i);
        if c == '/' || c == '\0' {
            return false;
        }
        i += 1;
    }
    true
}

/// The path of the pipe that belongs to the session called `name`.
pub fn pipe_path_for(name: &str) -> (path: String)
    ensures
        path@ == pipe_path_of(name@),
{
    let mut path = String::from_str("/tmp/");
    path.append(name);
    path.append(".pipe");
    path
}

/// `prefix` followed by `reason`.
fn prefixed(prefix: &str, reason: &str) -> (text: String)
    ensures
        text@ == prefix@ + reason@,
{
    let mut text = String::from_str(prefix);
    text.append(reason);
    text
}

fn remove_pipe_action(name: &str) -> (action: HostAction)
    ensures
        action@ == remove_pipe(name@),
{
    HostAction::RemoveFile { path: pipe_path_for(name) }
}

fn make_pipe_action(name: &str) -> (action: HostAction)
    ensures
        action@ == make_pipe(name@),
{
    let mut args: Vec<String> = Vec::new();
    args.push(pipe_path_for(name));
    assert(args.deep_view() =~= seq![pipe_path_of(name@)]);
    HostAction::Run { program: String::from_str("mkfifo"), args, quiet: false }
}

fn kill_viewer_action(name: &str) -> (action: HostAction)
    ensures
        action@ == kill_viewer(name@),
{
    let mut args: Vec<String> = Vec::new();
    args.push(String::from_str("kill-session"));
    args.push(String::from_str("-t"));
    args.push(String::from_str(name));
    assert(args.deep_view() =~= seq!["kill-session"@, "-t"@, name@]);
    HostAction::Run { program: String::from_str("tmux"), args, quiet: true }
}

fn spawn_viewer_action(name: &str) -> (action: HostAction)
    ensures
        action@ == spawn_viewer(name@),
{
    let pipe_path = pipe_path_for(name);
    let mut args: Vec<String> = Vec::new();
    args.push(String::from_str("new-session"));
    args.push(String::from_str("-d"));
    args.push(String::from_str("-s"));
    args.push(String::from_str(name));
    args.push(String::from_str("-x"));
    args.push(String::from_str(VIEWER_COLUMNS));
    args.push(String::from_str("-y"));
    args.push(String::from_str(VIEWER_ROWS));
    args.push(prefixed("tail -f ", pipe_path.as_str()));
    assert(args.deep_view() =~= seq![
        "new-session"@,
        "-d"@,
        "-s"@,
        name@,
        "-x"@,
        VIEWER_COLUMNS@,
        "-y"@,
        VIEWER_ROWS@,
        follow_command(name@),
    ]);
    HostAction::Run { program: String::from_str("tmux"), args, quiet: false }
}

/// Where a session stands in its life. There is no way back from
/// `Destroyed`.
#[derive(Debug, Clone, Copy, PartialEq, Eq)]
pub enum Lifecycle {
    /// The pipe and the viewer exist; the session takes writes.
    Created,
    /// The viewer was killed and the pipe removed.
    Destroyed,
}

/// A [`TmuxSession`] as plain mathematical values. The pipe's path is not
/// part of it: it is always `pipe_path_of(name)`.
pub struct SessionView {
    pub name: Seq<char>,
    pub lifecycle: Lifecycle,
}

/// A tmux session that shows what is written to its named pipe.
#[derive(Debug)]
pub struct TmuxSession {
    session_name: String,
    pipe_path: String,
    lifecycle: Lifecycle,
}

/// The steps of setting a session up, in the order in which they are taken.
#[derive(Debug, Clone, Copy, PartialEq, Eq)]
pub enum SetupPhase {
    /// Removing a pipe that an earlier run left behind.
    ClearStale,
    /// Creating the pipe.
    MakePipe,
    /// Killing a viewer that an earlier run left behind.
    KillStale,
    /// Starting the viewer.
    SpawnViewer,
    /// Removing the pipe again because the viewer did not start.
    Cleanup,
}

/// A [`SessionSetup`] as plain mathematical values.
pub struct SetupView {
    pub name: Seq<char>,
    pub phase: SetupPhase,
    /// Why the setup is being abandoned; empty before `Cleanup`.
    pub error: Seq<char>,
}

/// A session that is being set up: it waits for the outcome of the action
/// that was handed out last.
#[derive(Debug)]
pub struct SessionSetup {
    session_name: String,
    phase: SetupPhase,
    error: String,
}

/// What a setup does after an outcome.
#[derive(Debug)]
pub enum SetupStep {
    /// More work: carry out the action and report back to the setup.
    Continue(SessionSetup, HostAction),
    /// The pipe and the viewer exist.
    Created(TmuxSession),
    /// The setup failed; no pipe of its making is left behind.
    Failed(String),
}

/// A [`SetupStep`] as plain mathematical values.
pub enum SetupStepView {
    Continue(SetupView, ActionView),
    Created(SessionView),
    Failed(Seq<char>),
}

impl View for SetupStep {
    type V = SetupStepView;

    open spec fn view(&self) -> SetupStepView {
        match *self {
            SetupStep::Continue(setup, action) => SetupStepView::Continue(setup@, action@),
            SetupStep::Created(session) => SetupStepView::Created(session@),
            SetupStep::Failed(error) => SetupStepView::Failed(error@),
        }
    }
}

/// The action that a setup for `name` hands out when it enters `phase`.
pub open spec fn setup_action(name: Seq<char>, phase: SetupPhase) -> ActionView {
    match phase {
        SetupPhase::ClearStale => remove_pipe(name),
        SetupPhase::MakePipe => make_pipe(name),
        SetupPhase::KillStale => kill_viewer(name),
        SetupPhase::SpawnViewer => spawn_viewer(name),
        SetupPhase::Cleanup => remove_pipe(name),
    }
}

/// The setup for `name` as it begins.
pub open spec fn setup_start(name: Seq<char>) -> SetupView {
    SetupView { name, phase: SetupPhase::ClearStale, error: Seq::empty() }
}

/// The setup moves on to `phase`, remembering `error`.
pub open spec fn setup_enters(setup: SetupView, phase: SetupPhase, error: Seq<char>)
    -> SetupStepView {
    SetupStepView::Continue(
        SetupView { name: setup.name, phase, error },
        setup_action(setup.name, phase),
    )
}

/// The whole rule of setting a session up: what follows from `outcome` when
/// the setup waits in `setup.phase`.
///
/// * A stale pipe that cannot be removed ends the setup.
/// * The pipe must be created by a `mkfifo` that exits with success.
/// * Killing a stale viewer is an attempt only: every outcome is accepted.
/// * If the viewer does not start, the pipe is removed again before the
///   failure is reported, whatever becomes of that removal.
pub open spec fn setup_step(setup: SetupView, outcome: OutcomeView) -> SetupStepView {
    match setup.phase {
        SetupPhase::ClearStale => match outcome {
            OutcomeView::Failed(reason) => SetupStepView::Failed(
                "Failed to remove old pipe: "@ + reason,
            ),
            _ => setup_enters(setup, SetupPhase::MakePipe, setup.error),
        },
        SetupPhase::MakePipe => match outcome {
            OutcomeView::Done => setup_enters(setup, SetupPhase::KillStale, setup.error),
            OutcomeView::ExitFailure => SetupStepView::Failed("mkfifo command failed"@),
            OutcomeView::Failed(reason) => SetupStepView::Failed(
                "Failed to create named pipe: "@ + reason,
            ),
        },
        SetupPhase::KillStale => setup_enters(setup, SetupPhase::SpawnViewer, setup.error),
        SetupPhase::SpawnViewer => match outcome {
            OutcomeView::Done => SetupStepView::Created(
                SessionView { name: setup.name, lifecycle: Lifecycle::Created },
            ),
            OutcomeView::ExitFailure => setup_enters(
                setup,
                SetupPhase::Cleanup,
                "Failed to create tmux session"@,
            ),
            OutcomeView::Failed(reason) => setup_enters(
                setup,
                SetupPhase::Cleanup,
                "Failed to create tmux session: "@ + reason,
            ),
        },
        SetupPhase::Cleanup => SetupStepView::Failed(setup.error),
    }
}

impl View for SessionSetup {
    type V = SetupView;

    closed spec fn view(&self) -> SetupView {
        SetupView { name: self.session_name@, phase: self.phase, error: self.error@ }
    }
}

impl SessionSetup {
    #[verifier::type_invariant]
    spec fn well_formed(self) -> bool {
        valid_session_name(self.session_name@)
    }

    /// Enters `phase` and hands out its action.
    fn enter(self, phase: SetupPhase, error: String) -> (step: SetupStep)
        ensures
            step@ == setup_enters(self@, phase, error@),
    {
        proof {
            use_type_invariant(&self);
        }
        let action = match phase {
            SetupPhase::ClearStale => remove_pipe_action(self.session_name.as_str()),
            SetupPhase::MakePipe => make_pipe_action(self.session_name.as_str()),
            SetupPhase::KillStale => kill_viewer_action(self.session_name.as_str()),
            SetupPhase::SpawnViewer => spawn_viewer_action(self.session_name.as_str()),
            SetupPhase::Cleanup => remove_pipe_action(self.session_name.as_str()),
        };
        SetupStep::Continue(SessionSetup { session_name: self.session_name, phase, error }, action)
    }

    /// Takes the outcome of the action that was handed out last and says
    /// what follows: another action, the session, or the failure.
    pub fn advance(self, outcome: Outcome) -> (step: SetupStep)
        ensures
            step@ == setup_step(self@, outcome@),
    {
        proof {
            use_type_invariant(&self);
        }
        match self.phase {
            SetupPhase::ClearStale => match outcome {
                Outcome::Failed(reason) => SetupStep::Failed(
                    prefixed("Failed to remove old pipe: ", reason.as_str()),
                ),
                _ => {
                    let error = self.error.clone();
                    self.enter(SetupPhase::MakePipe, error)
                },
            },
            SetupPhase::MakePipe => match outcome {
                Outcome::Done => {
                    let error = self.error.clone();
                    self.enter(SetupPhase::KillStale, error)
                },
                Outcome::ExitFailure => SetupStep::Failed(String::from_str("mkfifo command failed")),
                Outcome::Failed(reason) => SetupStep::Failed(
                    prefixed("Failed to create named pipe: ", reason.as_str()),
                ),
            },
            SetupPhase::KillStale => {
                let error = self.error.clone();
                self.enter(SetupPhase::SpawnViewer, error)
            },
            SetupPhase::SpawnViewer => match outcome {
                Outcome::Done => {
                    let pipe_path = pipe_path_for(self.session_name.as_str());
                    SetupStep::Created(
                        TmuxSession {
                            session_name: self.session_name,
                            pipe_path,
                            lifecycle: Lifecycle::Created,
                        },
                    )
                },
                Outcome::ExitFailure => self.enter(
                    SetupPhase::Cleanup,
                    String::from_str("Failed to create tmux session"),
                ),
                Outcome::Failed(reason) => self.enter(
                    SetupPhase::Cleanup,
                    prefixed("Failed to create tmux session: ", reason.as_str()),
                ),
            },
            SetupPhase::Cleanup => SetupStep::Failed(self.error),
        }
    }
}

/// Whether taking a session down succeeded, given how the removal of its
/// pipe ended: only a removal that the system refused is a failure.
pub open spec fn destroy_succeeds(removal: OutcomeView) -> bool {
    !(removal is Failed)
}

/// What a write that stopped at `stage` for `reason` is reported as.
pub open spec fn write_error(stage: WriteStage, reason: Seq<char>) -> Seq<char> {
    match stage {
        WriteStage::Open => "Failed to open pipe: "@ + reason,
        WriteStage::Message => "Failed to write to pipe: "@ + reason,
        WriteStage::Newline => "Failed to write newline: "@ + reason,
        WriteStage::Flush => "Failed to flush pipe: "@ + reason,
    }
}

impl View for TmuxSession {
    type V = SessionView;

    closed spec fn view(&self) -> SessionView {
        SessionView { name: self.session_name@, lifecycle: self.lifecycle }
    }
}

impl TmuxSession {
    #[verifier::type_invariant]
    spec fn well_formed(self) -> bool {
        &&& valid_session_name(self.session_name@)
        &&& self.pipe_path@ == pipe_path_of(self.session_name@)
    }

    /// Begins to create the session called `name`.
    ///
    /// Nothing exists yet when this returns. The host carries out the action
    /// that comes with the setup and reports to [`SessionSetup::advance`],
    /// again and again, until the setup yields the session or fails. The
    /// first action removes a pipe that an earlier run may have left.
    pub fn create(name: &str) -> (start: (SessionSetup, HostAction))
        requires
            valid_session_name(name@),
        ensures
            start.0@ == setup_start(name@),
            start.1@ == setup_action(name@, SetupPhase::ClearStale),
    {
        let setup = SessionSetup {
            session_name: String::from_str(name),
            phase: SetupPhase::ClearStale,
            error: String::new(),
        };
        (setup, remove_pipe_action(name))
    }

    /// The write that puts `msg`, followed by a line feed, into the pipe.
    ///
    /// Opening a pipe for writing waits until something reads it: the host
    /// must not carry this out where waiting would hold up other work.
    pub fn write(&self, msg: &str) -> (action: HostAction)
        ensures
            action@ == (ActionView::Write { path: pipe_path_of(self@.name), message: msg@ }),
    {
        proof {
            use_type_invariant(self);
        }
        HostAction::Write { path: self.pipe_path.clone(), message: String::from_str(msg) }
    }

    /// Judges how a write ended: a write that stopped is an error that names
    /// the stage and gives the system's reason.
    pub fn finish_write(outcome: WriteOutcome) -> (result: Result<(), String>)
        ensures
            match outcome@ {
                WriteOutcomeView::Written => result is Ok,
                WriteOutcomeView::Failed { stage, reason } => result matches Err(e) && e@
                    == write_error(stage, reason),
            },
    {
        match outcome {
            WriteOutcome::Written => Ok(()),
            WriteOutcome::Failed { stage, reason } => {
                let prefix = match stage {
                    WriteStage::Open => "Failed to open pipe: ",
                    WriteStage::Message => "Failed to write to pipe: ",
                    WriteStage::Newline => "Failed to write newline: ",
                    WriteStage::Flush => "Failed to flush pipe: ",
                };
                Err(prefixed(prefix, reason.as_str()))
            },
        }
    }

    /// The session's name.
    pub fn session_name(&self) -> (name: &str)
        ensures
            name@ == self@.name,
            valid_session_name(name@),
    {
        proof {
            use_type_invariant(self);
        }
        self.session_name.as_str()
    }

    /// Where the session's pipe lies.
    pub fn pipe_path(&self) -> (path: &str)
        ensures
            path@ == pipe_path_of(self@.name),
    {
        proof {
            use_type_invariant(self);
        }
        self.pipe_path.as_str()
    }

    /// Where the session stands in its life.
    pub fn lifecycle(&self) -> (lifecycle: Lifecycle)
        ensures
            lifecycle == self@.lifecycle,
    {
        self.lifecycle
    }

    /// The two actions that take the session down, in order: kill the
    /// viewer, then remove the pipe.
    ///
    /// Killing the viewer is an attempt only, it may be gone already: its
    /// outcome is of no interest. The outcome of the removal goes to
    /// [`TmuxSession::finish_destroy`]. The same two actions come out however
    /// often this is asked, also of a session that is destroyed already.
    pub fn destroy(&self) -> (plan: (HostAction, HostAction))
        ensures
            plan.0@ == kill_viewer(self@.name),
            plan.1@ == remove_pipe(self@.name),
    {
        proof {
            use_type_invariant(self);
        }
        (
            kill_viewer_action(self.session_name.as_str()),
            remove_pipe_action(self.session_name.as_str()),
        )
    }

    /// Judges how the removal of the pipe ended and records it.
    ///
    /// Only a removal that the system refused is an error, and then the
    /// session stays as it was. Otherwise the pipe is gone, or was gone
    /// before, and the session is `Destroyed`.
    pub fn finish_destroy(&mut self, removal: Outcome) -> (result: Result<(), String>)
        ensures
            final(self)@.name == old(self)@.name,
            result is Ok <==> destroy_succeeds(removal@),
            old(self)@.lifecycle == Lifecycle::Destroyed ==> final(self)@.lifecycle
                == Lifecycle::Destroyed,
            match removal@ {
                OutcomeView::Failed(reason) => {
                    &&& result matches Err(e) && e@ == "Failed to remove pipe: "@ + reason
                    &&& final(self)@ == old(self)@
                },
                _ => result is Ok && final(self)@.lifecycle == Lifecycle::Destroyed,
            },
    {
        proof {
            use_type_invariant(&*self);
        }
        match removal {
            Outcome::Failed(reason) => Err(prefixed("Failed to remove pipe: ", reason.as_str())),
            _ => {
                self.lifecycle = Lifecycle::Destroyed;
                Ok(())
            },
        }
    }
}

} // verus!
