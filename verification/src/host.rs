//! The vocabulary between the library and the host that runs it.
//!
//! The library never touches the file system or starts a program. It hands
//! out a [`HostAction`], the host carries it out and reports what happened
//! as an [`Outcome`] (or a [`WriteOutcome`] for a write), and the library
//! decides what comes next.

use vstd::prelude::*;

verus! {

/// One piece of work that the host carries out for the library.
#[derive(Debug, PartialEq, Eq)]
pub enum HostAction {
    /// Remove the file at `path` if there is one; a missing file is no failure.
    RemoveFile { path: String },
    /// Start `program` with `args`, wait for it to exit and report its status.
    /// With `quiet`, whatever the program prints is captured and thrown away.
    Run { program: String, args: Vec<String>, quiet: bool },
    /// Open the pipe at `path` for writing, write `message`, write a line
    /// feed, flush, and release the handle.
    Write { path: String, message: String },
}

/// What a [`HostAction`] is, as plain mathematical values.
pub enum ActionView {
    RemoveFile { path: Seq<char> },
    Run { program: Seq<char>, args: Seq<Seq<char>>, quiet: bool },
    Write { path: Seq<char>, message: Seq<char> },
}

impl View for HostAction {
    type V = ActionView;

    open spec fn view(&self) -> ActionView {
        match *self {
            HostAction::RemoveFile { path } => ActionView::RemoveFile { path: path@ },
            HostAction::Run { program, args, quiet } => ActionView::Run {
                program: program@,
                args: args.deep_view(),
                quiet,
            },
            HostAction::Write { path, message } => ActionView::Write {
                path: path@,
                message: message@,
            },
        }
    }
}

/// How a removal or a program run ended.
#[derive(Debug, PartialEq, Eq)]
pub enum Outcome {
    /// The file is gone (or was never there); the program exited with success.
    Done,
    /// The program ran and exited with a failure status.
    ExitFailure,
    /// The operating system refused: the file could not be removed, the
    /// program could not be started. Carries the system's own wording.
    Failed(String),
}

/// An [`Outcome`] as plain mathematical values.
pub enum OutcomeView {
    Done,
    ExitFailure,
    Failed(Seq<char>),
}

impl View for Outcome {
    type V = OutcomeView;

    open spec fn view(&self) -> OutcomeView {
        match *self {
            Outcome::Done => OutcomeView::Done,
            Outcome::ExitFailure => OutcomeView::ExitFailure,
            Outcome::Failed(reason) => OutcomeView::Failed(reason@),
        }
    }
}

/// The point at which a write to the pipe can fail.
#[derive(Debug, Clone, Copy, PartialEq, Eq)]
pub enum WriteStage {
    /// Opening the pipe for writing.
    Open,
    /// Writing the message itself.
    Message,
    /// Writing the line feed after the message.
    Newline,
    /// Flushing what was written.
    Flush,
}

/// How a [`HostAction::Write`] ended.
#[derive(Debug, PartialEq, Eq)]
pub enum WriteOutcome {
    /// The message and its line feed went out and were flushed.
    Written,
    /// The write stopped at `stage`; `reason` is the system's own wording.
    Failed { stage: WriteStage, reason: String },
}

/// A [`WriteOutcome`] as plain mathematical values.
pub enum WriteOutcomeView {
    Written,
    Failed { stage: WriteStage, reason: Seq<char> },
}

impl View for WriteOutcome {
    type V = WriteOutcomeView;

    open spec fn view(&self) -> WriteOutcomeView {
        match *self {
            WriteOutcome::Written => WriteOutcomeView::Written,
            WriteOutcome::Failed { stage, reason } => WriteOutcomeView::Failed {
                stage,
                reason: reason@,
            },
        }
    }
}

/// What reaches the pipe when the host carries out a write of `message`:
/// the message, then one line feed.
pub open spec fn line_written(message: Seq<char>) -> Seq<char> {
    message.push('\n')
}

} // verus!
