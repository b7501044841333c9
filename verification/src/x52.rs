//! The display of the X52: its three scrolling lines and its driver session.
//!
//! The manager decides, the caller acts. Each operation ([`X52::tick`],
//! [`X52::initialise`], [`X52::reinitialise`]) answers with the driver call to
//! make next; the caller makes it and reports how it went
//! ([`X52::advance`]), until the answer is that the operation is done. The
//! manager keeps track of whether a driver session is live, and recovers from a
//! lost device by opening a fresh session and trying once more.

pub mod error;
pub mod line;
pub mod session;

pub use error::{ErrorClass, X52Error};
pub use session::{DriverCall, Job, Progress, Session, Stage, Task, X52View};

use line::{Line, LineView, DWELL, WIDTH};
use session::{job_fits, ticked};
use vstd::prelude::*;
use vstd::string::*;

verus! {

/// The number of lines of the display.
pub const LINES: usize = 3;

/// The session and the task under way.
#[derive(Debug)]
struct Protocol {
    session: Session,
    job: Option<Job>,
}

impl Protocol {
    #[verifier::type_invariant]
    spec fn coherent(self) -> bool {
        job_fits(self.session, self.job)
    }
}

/// The display manager: the state of the driver session, the task under way,
/// and the three lines.
#[derive(Debug)]
pub struct X52 {
    protocol: Protocol,
    lines: [Option<Line>; 3],
}

/// The view of a line that may be absent.
pub open spec fn line_view(line: Option<Line>) -> Option<LineView> {
    match line {
        Some(l) => Some(l@),
        None => None,
    }
}

/// Moves every line that is set on by one tick.
fn tick_lines(lines: &mut [Option<Line>; 3])
    ensures
        forall|k: int|
            0 <= k < LINES ==> line_view(#[trigger] final(lines)[k]) == ticked(
                line_view(old(lines)[k]),
            ),
{
    let mut index: usize = 0;
    while index < LINES
        invariant
            index <= LINES,
            forall|k: int|
                0 <= k < index ==> line_view(#[trigger] lines[k]) == ticked(
                    line_view(old(lines)[k]),
                ),
            forall|k: int| index <= k < LINES ==> lines[k] == old(lines)[k],
        decreases LINES - index,
    {
        match &mut lines[index] {
            Some(line) => line.tick(),
            None => {},
        }
        index += 1;
    }
}

impl View for X52 {
    type V = X52View;

    closed spec fn view(&self) -> X52View {
        X52View {
            session: self.protocol.session,
            lines: Seq::new(LINES as nat, |k: int| line_view(self.lines[k])),
            job: self.protocol.job,
        }
    }
}

impl Default for X52 {
    fn default() -> (manager: X52)
        ensures
            manager@.session == Session::Uninitialized,
            manager@.job is None,
            manager@.lines == Seq::new(LINES as nat, |k: int| None::<LineView>),
    {
        X52::new()
    }
}

impl X52 {
    /// A manager without a session, without lines and with nothing to do.
    pub fn new() -> (manager: X52)
        ensures
            manager@.session == Session::Uninitialized,
            manager@.job is None,
            manager@.lines == Seq::new(LINES as nat, |k: int| None::<LineView>),
            manager@.well_formed(),
            manager@.coherent(),
    {
        X52 {
            protocol: Protocol { session: Session::Uninitialized, job: None },
            lines: [None, None, None],
        }
    }

    /// Whether a driver session is live.
    pub fn session(&self) -> (session: Session)
        ensures
            session == self@.session,
    {
        self.protocol.session
    }

    /// Gives each line of the display a new text, shown from its start.
    pub fn set_lines(&mut self, new_lines: [String; 3]) -> (result: Result<(), X52Error>)
        ensures
            result is Ok,
            final(self)@.session == old(self)@.session,
            final(self)@.job == old(self)@.job,
            final(self)@.lines == Seq::new(
                LINES as nat,
                |k: int| Some(LineView::fresh(new_lines[k]@, WIDTH as nat, DWELL as nat)),
            ),
            final(self)@.well_formed(),
            final(self)@.coherent(),
    {
        let mut index: usize = 0;
        while index < LINES
            invariant
                index <= LINES,
                self.protocol == old(self).protocol,
                forall|k: int|
                    0 <= k < index ==> line_view(#[trigger] self.lines[k]) == Some(
                        LineView::fresh(new_lines[k]@, WIDTH as nat, DWELL as nat),
                    ),
            decreases LINES - index,
        {
            self.lines[index] = Some(Line::new(new_lines[index].as_str()));
            index += 1;
        }
        proof {
            use_type_invariant(&self.protocol);
        }
        assert(self@.lines =~= Seq::new(
            LINES as nat,
            |k: int| Some(LineView::fresh(new_lines[k]@, WIDTH as nat, DWELL as nat)),
        ));
        Ok(())
    }

    /// The driver call that does `task` on the lines as they are.
    fn call_for(&self, task: Task) -> (call: DriverCall)
        requires
            task matches Task::WriteLine(index) ==> index < LINES,
        ensures
            call@ == self@.call_for(task),
    {
        match task {
            Task::Initialise => DriverCall::Open,
            Task::WriteLine(index) => {
                let text = match &self.lines[index] {
                    Some(line) => line.get().to_owned(),
                    None => String::new(),
                };
                DriverCall::WriteText { index, text }
            },
            Task::Flush => DriverCall::Commit,
        }
    }

    /// The first of a tick's tasks from line `from` on.
    fn task_from(&self, from: usize) -> (task: Task)
        ensures
            task == self@.task_from(from as int),
            task matches Task::WriteLine(index) ==> index < LINES,
    {
        let mut index = from;
        while index < LINES
            invariant
                from <= index,
                forall|k: int| from <= k < index && k < LINES ==> self.lines[k] is None,
            decreases LINES - index,
        {
            if self.lines[index].is_some() {
                return Task::WriteLine(index);
            }
            index += 1;
        }
        Task::Flush
    }

    /// Ends the operation with `result`, holding `session`.
    fn done(&mut self, session: Session, result: Result<(), X52Error>) -> (progress: Progress)
        ensures
            (final(self)@, progress@) == old(self)@.with_session(session).done(result),
    {
        self.protocol = Protocol { session, job: None };
        Progress::Done(result)
    }

    /// With a live session, makes the driver call of `task`, as a first
    /// attempt or as a retry.
    fn attempt(&mut self, task: Task, stage: Stage) -> (progress: Progress)
        requires
            stage is Attempt || stage is Retry,
            task matches Task::WriteLine(index) ==> index < LINES,
        ensures
            (final(self)@, progress@) == old(self)@.with_session(Session::Live).attempt(
                task,
                stage,
            ),
    {
        match task {
            Task::Initialise => self.done(Session::Live, Ok(())),
            _ => {
                self.protocol = Protocol { session: Session::Live, job: Some(Job { task, stage }) };
                Progress::Call(self.call_for(task))
            },
        }
    }

    /// With a live session, goes on after `task` has succeeded.
    fn finish(&mut self, task: Task) -> (progress: Progress)
        requires
            old(self)@.session == Session::Live,
            task matches Task::WriteLine(index) ==> index < LINES,
        ensures
            (final(self)@, progress@) == old(self)@.finish(task),
    {
        match task {
            Task::WriteLine(index) => {
                let next = self.task_from(index + 1);
                self.attempt(next, Stage::Attempt)
            },
            _ => self.done(Session::Live, Ok(())),
        }
    }

    /// Takes up `task`, opening a session first where there is none.
    fn begin(&mut self, task: Task) -> (progress: Progress)
        requires
            task matches Task::WriteLine(index) ==> index < LINES,
        ensures
            (final(self)@, progress@) == old(self)@.begin(task),
    {
        match self.protocol.session {
            Session::Uninitialized => {
                self.protocol = Protocol {
                    session: Session::Uninitialized,
                    job: Some(Job { task, stage: Stage::Opening }),
                };
                Progress::Call(DriverCall::Open)
            },
            Session::Live => {
                self.attempt(task, Stage::Attempt)
            },
        }
    }

    /// Asks for a live session: with one already live there is nothing to
    /// do, without one a session is to be opened.
    pub fn initialise(&mut self) -> (progress: Progress)
        ensures
            (final(self)@, progress@) == old(self)@.begin(Task::Initialise),
            final(self)@.coherent(),
    {
        let progress = self.begin(Task::Initialise);
        proof {
            use_type_invariant(&self.protocol);
        }
        progress
    }

    /// Asks for a fresh session: a live one is to be closed, and then a
    /// session is to be opened.
    pub fn reinitialise(&mut self) -> (progress: Progress)
        ensures
            (final(self)@, progress@) == old(self)@.reinitialise(),
            final(self)@.coherent(),
    {
        let progress = match self.protocol.session {
            Session::Live => {
                self.protocol = Protocol {
                    session: Session::Live,
                    job: Some(Job { task: Task::Initialise, stage: Stage::Closing }),
                };
                Progress::Call(DriverCall::Close)
            },
            Session::Uninitialized => self.begin(Task::Initialise),
        };
        proof {
            use_type_invariant(&self.protocol);
        }
        progress
    }

    /// Gives the session up. Where one is live the driver is to close it;
    /// whatever was under way is dropped.
    pub fn shutdown(&mut self) -> (call: Option<DriverCall>)
        ensures
            final(self)@ == old(self)@.with_session(Session::Uninitialized).with_job(None),
            final(self)@.coherent(),
            match old(self)@.session {
                Session::Live => call matches Some(DriverCall::Close),
                Session::Uninitialized => call is None,
            },
    {
        let call = match self.protocol.session {
            Session::Live => Some(DriverCall::Close),
            Session::Uninitialized => None,
        };
        self.protocol = Protocol { session: Session::Uninitialized, job: None };
        call
    }

    /// Moves every line on by one tick and begins to write the lines to the
    /// display.
    pub fn tick(&mut self) -> (progress: Progress)
        ensures
            (final(self)@, progress@) == old(self)@.tick(),
            final(self)@.coherent(),
    {
        tick_lines(&mut self.lines);
        assert(self@.lines =~= old(self)@.with_lines_ticked().lines);
        let first = self.task_from(0);
        let progress = self.begin(first);
        proof {
            use_type_invariant(&self.protocol);
        }
        progress
    }

    /// Takes in how the driver call that was asked for went, and says what
    /// is next, as [`X52View::advance`] describes it.
    pub fn advance(&mut self, outcome: Result<(), X52Error>) -> (progress: Progress)
        ensures
            (final(self)@, progress@) == old(self)@.advance(outcome),
            final(self)@.coherent(),
    {
        proof {
            use_type_invariant(&self.protocol);
        }
        let session = self.protocol.session;
        let progress = match self.protocol.job {
            None => self.done(session, Ok(())),
            Some(job) => match job.stage {
                Stage::Opening => match outcome {
                    Ok(_) => self.attempt(job.task, Stage::Attempt),
                    Err(error) => self.done(Session::Uninitialized, Err(error)),
                },
                Stage::Attempt => match outcome {
                    Ok(_) => self.finish(job.task),
                    Err(error) => {
                        if error.is_device_absent() {
                            self.protocol = Protocol {
                                session: Session::Live,
                                job: Some(Job { task: job.task, stage: Stage::Closing }),
                            };
                            Progress::Call(DriverCall::Close)
                        } else {
                            self.done(session, Err(error))
                        }
                    },
                },
                Stage::Closing => {
                    self.protocol = Protocol {
                        session: Session::Uninitialized,
                        job: Some(Job { task: job.task, stage: Stage::Reopening }),
                    };
                    Progress::Call(DriverCall::Open)
                },
                Stage::Reopening => match outcome {
                    Ok(_) => self.attempt(job.task, Stage::Retry),
                    Err(error) => self.done(session, Err(error)),
                },
                Stage::Retry => match outcome {
                    Ok(_) => self.finish(job.task),
                    Err(error) => self.done(session, Err(error)),
                },
            },
        };
        proof {
            use_type_invariant(&self.protocol);
        }
        progress
    }
}

} // verus!
