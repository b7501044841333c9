//! The rules of the driver session: which driver call comes next, when a
//! lost device is worth another try, and when an operation is over.
//!
//! The rules are functions on [`X52View`], the state of the display manager
//! as a mathematical value. The manager's operations are stated in their
//! terms, and the laws at the end of this file are proved of them.

use super::error::X52Error;
use super::line::{lemma_render_fits, lemma_tick_keeps_bounds, LineView};
use super::LINES;
use vstd::prelude::*;

verus! {

/// Whether the manager holds a driver session.
#[derive(Clone, Copy, Debug, PartialEq, Eq, Structural)]
pub enum Session {
    /// There is no session: none was opened yet, or the last one was closed.
    Uninitialized,
    /// A session is open.
    Live,
}

/// What the manager was asked to get done.
#[derive(Clone, Copy, Debug, PartialEq, Eq, Structural)]
pub enum Task {
    /// Have a live session.
    Initialise,
    /// Write what the line with this index shows to the display.
    WriteLine(usize),
    /// Commit the lines written to the device.
    Flush,
}

/// How far the manager has come with a task.
#[derive(Clone, Copy, Debug, PartialEq, Eq, Structural)]
pub enum Stage {
    /// There was no session: one is being opened before the first attempt.
    Opening,
    /// The task's driver call is being made for the first time.
    Attempt,
    /// The first attempt met an absent device: the stale session is being
    /// closed.
    Closing,
    /// The stale session is closed: a fresh one is being opened.
    Reopening,
    /// The task's driver call is being made for the second and last time.
    Retry,
}

/// A task under way.
#[derive(Clone, Copy, Debug, PartialEq, Eq, Structural)]
pub struct Job {
    pub task: Task,
    pub stage: Stage,
}

/// A call into the display driver.
#[derive(Debug)]
pub enum DriverCall {
    /// Open a session.
    Open,
    /// Close the session.
    Close,
    /// Write `text` to the line of the display with this index.
    WriteText { index: usize, text: String },
    /// Commit what was written to the device.
    Commit,
}

/// A [`DriverCall`] as the contracts see it.
pub enum DriverCallView {
    Open,
    Close,
    WriteText { index: usize, text: Seq<char> },
    Commit,
}

impl View for DriverCall {
    type V = DriverCallView;

    open spec fn view(&self) -> DriverCallView {
        match self {
            DriverCall::Open => DriverCallView::Open,
            DriverCall::Close => DriverCallView::Close,
            DriverCall::WriteText { index, text } => DriverCallView::WriteText {
                index: *index,
                text: text@,
            },
            DriverCall::Commit => DriverCallView::Commit,
        }
    }
}

/// What the manager wants next.
#[derive(Debug)]
pub enum Progress {
    /// Make this driver call and report how it went.
    Call(DriverCall),
    /// The operation is over, and this is how it ended.
    Done(Result<(), X52Error>),
}

/// A [`Progress`] as the contracts see it.
pub enum ProgressView {
    Call(DriverCallView),
    Done(Result<(), X52Error>),
}

impl View for Progress {
    type V = ProgressView;

    open spec fn view(&self) -> ProgressView {
        match self {
            Progress::Call(call) => ProgressView::Call(call@),
            Progress::Done(result) => ProgressView::Done(*result),
        }
    }
}

/// The state of an [`X52`](super::X52) as the contracts see it.
pub struct X52View {
    /// Whether a driver session is live.
    pub session: Session,
    /// The three lines; a line is absent until it is first set.
    pub lines: Seq<Option<LineView>>,
    /// The task under way, if any.
    pub job: Option<Job>,
}

/// Whether the task under way fits the display and the session: a line that
/// is being written is one of the display's lines, a session is being opened
/// only where there is none, and the driver is asked to write, to commit or
/// to close only where a session is live.
pub open spec fn job_fits(session: Session, job: Option<Job>) -> bool {
    match job {
        None => true,
        Some(job) => {
            &&& job.task matches Task::WriteLine(index) ==> index < LINES
            &&& match job.stage {
                Stage::Opening | Stage::Reopening => session == Session::Uninitialized,
                Stage::Attempt | Stage::Closing | Stage::Retry => session == Session::Live,
            }
        },
    }
}

/// A line that may be absent, one tick later.
pub open spec fn ticked(line: Option<LineView>) -> Option<LineView> {
    match line {
        Some(l) => Some(l.tick()),
        None => None,
    }
}

impl X52View {
    /// There are three lines, each with its offset within its text.
    pub open spec fn well_formed(self) -> bool {
        &&& self.lines.len() == LINES
        &&& forall|k: int|
            0 <= k < LINES ==> (#[trigger] self.lines[k] matches Some(l) ==> l.well_formed())
    }

    /// The state with another task under way, or none.
    pub open spec fn with_job(self, job: Option<Job>) -> X52View {
        X52View { job, ..self }
    }

    /// The state with the session opened or closed.
    pub open spec fn with_session(self, session: Session) -> X52View {
        X52View { session, ..self }
    }

    /// What the line with this index shows; nothing, where there is no such
    /// line or it was never set.
    pub open spec fn shown(self, index: usize) -> Seq<char> {
        if index < self.lines.len() {
            match self.lines[index as int] {
                Some(l) => l.render(),
                None => Seq::empty(),
            }
        } else {
            Seq::empty()
        }
    }

    /// The driver call that does a task.
    pub open spec fn call_for(self, task: Task) -> DriverCallView {
        match task {
            Task::Initialise => DriverCallView::Open,
            Task::WriteLine(index) => DriverCallView::WriteText { index, text: self.shown(index) },
            Task::Flush => DriverCallView::Commit,
        }
    }

    /// The first of a tick's tasks from line `from` on: the lines that are set
    /// are written in their order, and then all is committed.
    pub open spec fn task_from(self, from: int) -> Task {
        if from <= 0 && self.lines[0] is Some {
            Task::WriteLine(0)
        } else if from <= 1 && self.lines[1] is Some {
            Task::WriteLine(1)
        } else if from <= 2 && self.lines[2] is Some {
            Task::WriteLine(2)
        } else {
            Task::Flush
        }
    }

    /// The task that follows `task` within one operation, if any.
    pub open spec fn successor(self, task: Task) -> Option<Task> {
        match task {
            Task::WriteLine(index) => Some(self.task_from(index + 1)),
            Task::Flush => None,
            Task::Initialise => None,
        }
    }

    /// The operation ends with this result: no task is under way any more.
    pub open spec fn done(self, result: Result<(), X52Error>) -> (X52View, ProgressView) {
        (self.with_job(None), ProgressView::Done(result))
    }

    /// A task has succeeded: the next task of the operation is attempted, or
    /// the operation is done.
    pub open spec fn finish(self, task: Task) -> (X52View, ProgressView) {
        match self.successor(task) {
            Some(next) => self.attempt(next, Stage::Attempt),
            None => self.done(Ok(())),
        }
    }

    /// With a live session, the driver call of `task` is made, as a first
    /// attempt or as a retry. Initialising asks no more than a live session.
    pub open spec fn attempt(self, task: Task, stage: Stage) -> (X52View, ProgressView) {
        match task {
            Task::Initialise => self.done(Ok(())),
            _ => (self.with_job(Some(Job { task, stage })), ProgressView::Call(self.call_for(task))),
        }
    }

    /// A task is taken up: without a session one is opened first.
    pub open spec fn begin(self, task: Task) -> (X52View, ProgressView) {
        match self.session {
            Session::Uninitialized => (
                self.with_job(Some(Job { task, stage: Stage::Opening })),
                ProgressView::Call(DriverCallView::Open),
            ),
            Session::Live => self.attempt(task, Stage::Attempt),
        }
    }

    /// The state and the next step after the driver call that was asked for
    /// has ended with `outcome`.
    ///
    /// - A session that could not be opened ends the operation with the
    ///   driver's error, and there is no session.
    /// - A first attempt that fails because the device is absent has the
    ///   stale session closed and a fresh one opened, and the call is then
    ///   made once more. Any other error ends the operation at once.
    /// - A retry that fails ends the operation with its error, whatever the
    ///   error's class.
    /// - With no task under way there is nothing to go on with.
    pub open spec fn advance(self, outcome: Result<(), X52Error>) -> (X52View, ProgressView) {
        match self.job {
            None => self.done(Ok(())),
            Some(job) => match job.stage {
                Stage::Opening => match outcome {
                    Ok(_) => self.with_session(Session::Live).attempt(job.task, Stage::Attempt),
                    Err(error) => self.with_session(Session::Uninitialized).done(Err(error)),
                },
                Stage::Attempt => match outcome {
                    Ok(_) => self.finish(job.task),
                    Err(error) => if error.device_absent() {
                        (
                            self.with_job(Some(Job { task: job.task, stage: Stage::Closing })),
                            ProgressView::Call(DriverCallView::Close),
                        )
                    } else {
                        self.done(Err(error))
                    },
                },
                Stage::Closing => (
                    self.with_session(Session::Uninitialized).with_job(
                        Some(Job { task: job.task, stage: Stage::Reopening }),
                    ),
                    ProgressView::Call(DriverCallView::Open),
                ),
                Stage::Reopening => match outcome {
                    Ok(_) => self.with_session(Session::Live).attempt(job.task, Stage::Retry),
                    Err(error) => self.done(Err(error)),
                },
                Stage::Retry => match outcome {
                    Ok(_) => self.finish(job.task),
                    Err(error) => self.done(Err(error)),
                },
            },
        }
    }

    /// The state with every line one tick later.
    pub open spec fn with_lines_ticked(self) -> X52View {
        X52View { lines: Seq::new(self.lines.len(), |k: int| ticked(self.lines[k])), ..self }
    }

    /// One tick of the display: every line moves on, and then the lines are
    /// written and committed, beginning with the first line that is set.
    pub open spec fn tick(self) -> (X52View, ProgressView) {
        let moved = self.with_lines_ticked();
        moved.begin(moved.task_from(0))
    }

    /// A fresh session is asked for: a live one is closed first.
    pub open spec fn reinitialise(self) -> (X52View, ProgressView) {
        match self.session {
            Session::Live => (
                self.with_job(Some(Job { task: Task::Initialise, stage: Stage::Closing })),
                ProgressView::Call(DriverCallView::Close),
            ),
            Session::Uninitialized => self.begin(Task::Initialise),
        }
    }
}

/// The lines change with a tick only, which moves each of them on by one
/// tick; no outcome of a driver call and no request for a session touches
/// them. Lines whose offsets lie within their texts keep them there.
pub proof fn lemma_lines_move_with_ticks_only(manager: X52View, outcome: Result<(), X52Error>)
    requires
        manager.well_formed(),
    ensures
        manager.advance(outcome).0.lines == manager.lines,
        manager.begin(Task::Initialise).0.lines == manager.lines,
        manager.reinitialise().0.lines == manager.lines,
        manager.tick().0.lines == manager.with_lines_ticked().lines,
        manager.tick().0.well_formed(),
{
    let moved = manager.with_lines_ticked();
    assert forall|k: int| 0 <= k < LINES implies (#[trigger] moved.lines[k] matches Some(l)
        ==> l.well_formed()) by {
        if manager.lines[k] is Some {
            lemma_tick_keeps_bounds(manager.lines[k]->0);
        }
    }
}

/// What is written to the display is what the line shows, and that is never
/// wider than the line.
pub proof fn lemma_written_text_fits(manager: X52View, index: usize)
    requires
        manager.well_formed(),
        index < LINES,
        manager.lines[index as int] is Some,
    ensures
        manager.call_for(Task::WriteLine(index)) == (DriverCallView::WriteText {
            index,
            text: manager.lines[index as int]->0.render(),
        }),
        manager.shown(index).len() <= manager.lines[index as int]->0.width,
{
    lemma_render_fits(manager.lines[index as int]->0);
}

/// A first attempt at writing a line or at committing that fails with any
/// error but an absent device ends the operation at once with that error:
/// nothing is retried, and the session is left as it was.
pub proof fn lemma_other_error_surfaces_at_once(manager: X52View, task: Task, error: X52Error)
    requires
        manager.job == Some(Job { task, stage: Stage::Attempt }),
        !error.device_absent(),
    ensures
        manager.advance(Err(error)) == (manager.with_job(None), ProgressView::Done(Err(error))),
{
}

/// A first attempt at writing a line or at committing that fails because the
/// device is absent is followed by one reinitialisation and one retry, and by
/// no more.
///
/// The stale session is closed and a fresh one is asked for. If that cannot
/// be opened, the operation ends with the error of opening it, and there is
/// no session. If it can, the same driver call is made once more; an error of
/// that retry ends the operation, whatever its class, and a success lets the
/// operation go on with what follows the task.
pub proof fn lemma_absent_device_retried_once(
    manager: X52View,
    task: Task,
    error: X52Error,
    closed: Result<(), X52Error>,
    opened: Result<(), X52Error>,
    retried: Result<(), X52Error>,
)
    requires
        manager.job == Some(Job { task, stage: Stage::Attempt }),
        task is WriteLine || task is Flush,
        error.device_absent(),
    ensures
        ({
            let (closing, first) = manager.advance(Err(error));
            let (reopening, second) = closing.advance(closed);
            let (retrying, third) = reopening.advance(opened);
            let (after, fourth) = retrying.advance(retried);
            &&& first == ProgressView::Call(DriverCallView::Close)
            &&& second == ProgressView::Call(DriverCallView::Open)
            &&& match opened {
                Err(failure) => {
                    &&& third == ProgressView::Done(Err(failure))
                    &&& retrying.session == Session::Uninitialized
                    &&& retrying.job is None
                },
                Ok(_) => {
                    &&& third == ProgressView::Call(manager.call_for(task))
                    &&& retrying.session == Session::Live
                    &&& retrying.job == Some(Job { task, stage: Stage::Retry })
                    &&& match retried {
                        Err(failure) => {
                            &&& fourth == ProgressView::Done(Err(failure))
                            &&& after.job is None
                        },
                        Ok(_) => (after, fourth) == retrying.finish(task),
                    }
                },
            }
        }),
{
}

/// What follows a task that has succeeded is never a call that opens or
/// closes a session: it is the next write, the commit, or the end of the
/// operation.
pub proof fn lemma_success_opens_nothing(manager: X52View, task: Task)
    ensures
        manager.finish(task).1 !== ProgressView::Call(DriverCallView::Open),
        manager.finish(task).1 !== ProgressView::Call(DriverCallView::Close),
{
}

/// A manager with a live session is not asked to open another one when a
/// task is taken up, and initialising it is done at once.
pub proof fn lemma_initialise_is_idempotent(manager: X52View)
    requires
        manager.session == Session::Live,
    ensures
        manager.begin(Task::Initialise) == manager.done(Ok(())),
{
}

impl X52View {
    /// The task under way fits the display and the session.
    pub open spec fn coherent(self) -> bool {
        job_fits(self.session, self.job)
    }

    /// Whether a step agrees with the state that the manager is in after it:
    /// opening asks for no session, every other call for a live one; a write
    /// goes to one of the display's lines; and nothing is under way once the
    /// operation is done.
    pub open spec fn fits(self, progress: ProgressView) -> bool {
        match progress {
            ProgressView::Call(DriverCallView::Open) => self.session == Session::Uninitialized,
            ProgressView::Call(DriverCallView::WriteText { index, .. }) => {
                &&& self.session == Session::Live
                &&& index < LINES
            },
            ProgressView::Call(_) => self.session == Session::Live,
            ProgressView::Done(_) => self.job is None,
        }
    }
}

/// At most one session is live at a time. A manager whose task fits its
/// session keeps it so through every operation and every outcome; it asks for
/// a session to be opened only while it holds none, and for any other driver
/// call only while it holds one. A manager with no task under way, such as a
/// new one, is in such a state.
pub proof fn lemma_one_session_at_a_time(manager: X52View, outcome: Result<(), X52Error>)
    requires
        manager.coherent(),
    ensures
        manager.with_job(None).coherent(),
        manager.advance(outcome).0.coherent(),
        manager.advance(outcome).0.fits(manager.advance(outcome).1),
        manager.tick().0.coherent(),
        manager.tick().0.fits(manager.tick().1),
        manager.begin(Task::Initialise).0.coherent(),
        manager.begin(Task::Initialise).0.fits(manager.begin(Task::Initialise).1),
        manager.reinitialise().0.coherent(),
        manager.reinitialise().0.fits(manager.reinitialise().1),
{
}

} // verus!
