//! What the library's decisions amount to on a host that does what it
//! reports.
//!
//! The library cannot see the file system. What it can promise is stated
//! here against a small model of it, [`World`], and of a host that carries
//! actions out faithfully, [`carried_out`]: given such a host, creating a
//! session makes its pipe, destroying the session leaves none, and
//! destroying it again finds nothing to fail on.

use vstd::prelude::*;
use crate::host::{ActionView, OutcomeView};
use crate::tmux::{
    destroy_succeeds, kill_viewer, pipe_path_of, remove_pipe, setup_action, setup_start,
    setup_step, Lifecycle, SessionView, SetupPhase, SetupStepView, SetupView,
};

verus! {

/// The part of the outside world that sessions touch: the paths at which a
/// file exists.
pub struct World {
    pub files: Set<Seq<char>>,
}

/// Whether a faithful host, starting in `before`, can report `outcome` for
/// `action` and leave the world as `after`.
///
/// * A removal that is reported done leaves no file at the path. One that
///   is reported refused found a file there and left everything as it was.
/// * `mkfifo <path>` that exits with success has made a file at the path;
///   otherwise it has made none.
/// * No other program, and no write, makes or removes a file.
pub open spec fn carried_out(
    before: World,
    action: ActionView,
    outcome: OutcomeView,
    after: World,
) -> bool {
    match action {
        ActionView::RemoveFile { path } => match outcome {
            OutcomeView::Failed(_) => before.files.contains(path) && after.files == before.files,
            _ => after.files == before.files.remove(path),
        },
        ActionView::Run { program, args, quiet } => {
            if program == "mkfifo"@ && args.len() == 1 && outcome is Done {
                after.files == before.files.insert(args[0])
            } else {
                after.files == before.files
            }
        },
        ActionView::Write { path, message } => after.files == before.files,
    }
}

/// The order of the setup's phases.
pub open spec fn phase_rank(phase: SetupPhase) -> nat {
    match phase {
        SetupPhase::ClearStale => 0,
        SetupPhase::MakePipe => 1,
        SetupPhase::KillStale => 2,
        SetupPhase::SpawnViewer => 3,
        SetupPhase::Cleanup => 4,
    }
}

/// A setup never goes back: whenever it asks for more work it has moved to
/// a later phase, keeps its session's name, and asks for that phase's
/// action. A setup is therefore over after five actions at most.
pub proof fn lemma_setup_moves_forward(setup: SetupView, outcome: OutcomeView)
    ensures
        setup_step(setup, outcome) matches SetupStepView::Continue(next, action) ==> {
            &&& phase_rank(next.phase) > phase_rank(setup.phase)
            &&& next.name == setup.name
            &&& action == setup_action(setup.name, next.phase)
        },
{
}

/// A setup leaks no pipe. It gives up at once only while it has made no
/// pipe yet: when a stale pipe cannot be removed, or when `mkfifo` fails.
/// Once its pipe exists, a viewer that does not start sends the setup to
/// `Cleanup`, whose action removes the pipe, and the failure is reported
/// only after that action's outcome, unchanged by it.
pub proof fn lemma_setup_cleans_up(setup: SetupView, outcome: OutcomeView)
    ensures
        setup_step(setup, outcome) is Failed ==> {
            ||| setup.phase == SetupPhase::ClearStale
            ||| setup.phase == SetupPhase::MakePipe
            ||| setup.phase == SetupPhase::Cleanup
        },
        setup.phase == SetupPhase::SpawnViewer && !(outcome is Done) ==> {
            &&& setup_step(setup, outcome) matches SetupStepView::Continue(next, action)
            &&& next.phase == SetupPhase::Cleanup
            &&& action == remove_pipe(setup.name)
        },
        setup.phase == SetupPhase::Cleanup ==> setup_step(setup, outcome)
            == SetupStepView::Failed(setup.error),
        setup_step(setup, outcome) is Created ==> setup.phase == SetupPhase::SpawnViewer
            && outcome is Done,
{
}

/// The four steps of a setup that succeeds, on a faithful host: the worlds
/// `w0` to `w4` are those before and after each of its actions, `o1` to `o4`
/// what the host reported.
pub open spec fn created_on(
    name: Seq<char>,
    w0: World,
    o1: OutcomeView,
    w1: World,
    o2: OutcomeView,
    w2: World,
    o3: OutcomeView,
    w3: World,
    o4: OutcomeView,
    w4: World,
) -> bool {
    let s0 = setup_start(name);
    &&& setup_step(s0, o1) matches SetupStepView::Continue(s1, a1)
    &&& setup_step(s1, o2) matches SetupStepView::Continue(s2, a2)
    &&& setup_step(s2, o3) matches SetupStepView::Continue(s3, a3)
    &&& setup_step(s3, o4) == SetupStepView::Created(
        SessionView { name, lifecycle: Lifecycle::Created },
    )
    &&& carried_out(w0, setup_action(name, SetupPhase::ClearStale), o1, w1)
    &&& carried_out(w1, a1, o2, w2)
    &&& carried_out(w2, a2, o3, w3)
    &&& carried_out(w3, a3, o4, w4)
}

/// Destroying a session once, on a faithful host: the viewer is killed
/// with whatever outcome, then the pipe's removal is reported as `removal`.
pub open spec fn destroyed_on(
    name: Seq<char>,
    before: World,
    kill: OutcomeView,
    between: World,
    removal: OutcomeView,
    after: World,
) -> bool {
    &&& carried_out(before, kill_viewer(name), kill, between)
    &&& carried_out(between, remove_pipe(name), removal, after)
}

/// When a session has been created, its pipe exists at the path derived
/// from its name.
pub proof fn lemma_created_session_has_pipe(
    name: Seq<char>,
    w0: World,
    o1: OutcomeView,
    w1: World,
    o2: OutcomeView,
    w2: World,
    o3: OutcomeView,
    w3: World,
    o4: OutcomeView,
    w4: World,
)
    requires
        created_on(name, w0, o1, w1, o2, w2, o3, w3, o4, w4),
    ensures
        w4.files.contains(pipe_path_of(name)),
{
    reveal_strlit("mkfifo");
    reveal_strlit("tmux");
    assert(o2 is Done);
    assert(w2.files.contains(pipe_path_of(name)));
    assert("tmux"@.len() == 4 && "mkfifo"@.len() == 6);
}

/// Creating a session and then destroying it leaves no pipe at the path
/// derived from its name, whenever the destroying reports success.
pub proof fn lemma_create_then_destroy_leaves_no_pipe(
    name: Seq<char>,
    w0: World,
    o1: OutcomeView,
    w1: World,
    o2: OutcomeView,
    w2: World,
    o3: OutcomeView,
    w3: World,
    o4: OutcomeView,
    w4: World,
    kill: OutcomeView,
    w5: World,
    removal: OutcomeView,
    w6: World,
)
    requires
        created_on(name, w0, o1, w1, o2, w2, o3, w3, o4, w4),
        destroyed_on(name, w4, kill, w5, removal, w6),
        destroy_succeeds(removal),
    ensures
        !w6.files.contains(pipe_path_of(name)),
{
}

/// Destroying a session a second time never fails once the first time has
/// succeeded: the pipe is gone, so there is nothing that a removal could be
/// refused on.
pub proof fn lemma_second_destroy_succeeds(
    name: Seq<char>,
    w0: World,
    kill1: OutcomeView,
    w1: World,
    removal1: OutcomeView,
    w2: World,
    kill2: OutcomeView,
    w3: World,
    removal2: OutcomeView,
    w4: World,
)
    requires
        destroyed_on(name, w0, kill1, w1, removal1, w2),
        destroy_succeeds(removal1),
        destroyed_on(name, w2, kill2, w3, removal2, w4),
    ensures
        destroy_succeeds(removal2),
        !w4.files.contains(pipe_path_of(name)),
{
    reveal_strlit("mkfifo");
    reveal_strlit("tmux");
    assert("tmux"@.len() == 4 && "mkfifo"@.len() == 6);
    assert(!w2.files.contains(pipe_path_of(name)));
    assert(w3.files == w2.files);
}

} // verus!
