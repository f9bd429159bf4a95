//! Appending one line to the log file, step by step: open the file for
//! appending; where that fails, create it; write the line; where the write
//! fails, say so on the console.
//!
//! The job decides, the host acts: the host performs the action of the
//! current stage and reports whether it succeeded.

use vstd::prelude::*;
use vstd::string::*;

verus! {

/// Where a job stands.
#[derive(Debug, Clone, Copy, PartialEq, Eq, Structural)]
pub enum Stage {
    /// The file is to be opened for appending.
    Open,
    /// Opening failed; the file is to be created.
    Create,
    /// A file is open; the line is to be written.
    Write,
    /// Writing failed; the failure is to be announced.
    Notice,
    /// Creating failed; the host gives up with a panic.
    Abort,
    /// Nothing is left to do.
    Closed,
}

impl Stage {
    /// The stage that follows once the action of this one has succeeded
    /// (`ok`) or failed.
    pub open spec fn after(self, ok: bool) -> Stage {
        match self {
            Stage::Open => if ok {
                Stage::Write
            } else {
                Stage::Create
            },
            Stage::Create => if ok {
                Stage::Write
            } else {
                Stage::Abort
            },
            Stage::Write => if ok {
                Stage::Closed
            } else {
                Stage::Notice
            },
            Stage::Notice => Stage::Closed,
            Stage::Abort => Stage::Abort,
            Stage::Closed => Stage::Closed,
        }
    }

    /// How many steps a job at this stage can still take at most.
    pub open spec fn rank(self) -> nat {
        match self {
            Stage::Open => 4,
            Stage::Create => 3,
            Stage::Write => 2,
            Stage::Notice => 1,
            Stage::Abort => 0,
            Stage::Closed => 0,
        }
    }

    /// Whether the job has ended at this stage.
    pub open spec fn is_final(self) -> bool {
        self == Stage::Abort || self == Stage::Closed
    }

    /// The stage after this one, once its action has succeeded (`ok`) or
    /// failed.
    pub fn next(self, ok: bool) -> (stage: Stage)
        ensures
            stage == self.after(ok),
    {
        match self {
            Stage::Open => if ok {
                Stage::Write
            } else {
                Stage::Create
            },
            Stage::Create => if ok {
                Stage::Write
            } else {
                Stage::Abort
            },
            Stage::Write => if ok {
                Stage::Closed
            } else {
                Stage::Notice
            },
            Stage::Notice => Stage::Closed,
            Stage::Abort => Stage::Abort,
            Stage::Closed => Stage::Closed,
        }
    }
}

/// What is printed when the line could not be written.
pub open spec fn failure_notice() -> Seq<char> {
    "Failed to perform necessary steps"@
}

/// What the host is asked to do, as text.
pub enum Request {
    OpenAppend { path: Seq<char> },
    Create { path: Seq<char> },
    WriteLine { line: Seq<char> },
    PrintLine { line: Seq<char> },
    Panic,
    Nothing,
}

/// What the host is asked to do.
#[derive(Debug, Clone, PartialEq, Eq)]
pub enum Action {
    /// Open the file at `path` for appending, without creating it.
    OpenAppend { path: String },
    /// Create the file at `path`, emptying it if it exists, and open it.
    Create { path: String },
    /// Write `line` and a newline to the open file.
    WriteLine { line: String },
    /// Print `line` and a newline to the console.
    PrintLine { line: String },
    /// Panic: the file could be neither opened nor created.
    Panic,
    /// Nothing: the job has ended.
    Nothing,
}

impl View for Action {
    type V = Request;

    open spec fn view(&self) -> Request {
        match self {
            Action::OpenAppend { path } => Request::OpenAppend { path: path@ },
            Action::Create { path } => Request::Create { path: path@ },
            Action::WriteLine { line } => Request::WriteLine { line: line@ },
            Action::PrintLine { line } => Request::PrintLine { line: line@ },
            Action::Panic => Request::Panic,
            Action::Nothing => Request::Nothing,
        }
    }
}

/// A job as plain data: the file's path, the line to append, the stage.
pub struct Job {
    pub path: Seq<char>,
    pub line: Seq<char>,
    pub stage: Stage,
}

impl Job {
    /// The job that appends `line` to the file at `path`, before its first
    /// step.
    pub open spec fn start(path: Seq<char>, line: Seq<char>) -> Job {
        Job { path, line, stage: Stage::Open }
    }

    /// What the host is asked to do at the current stage.
    pub open spec fn request(self) -> Request {
        match self.stage {
            Stage::Open => Request::OpenAppend { path: self.path },
            Stage::Create => Request::Create { path: self.path },
            Stage::Write => Request::WriteLine { line: self.line },
            Stage::Notice => Request::PrintLine { line: failure_notice() },
            Stage::Abort => Request::Panic,
            Stage::Closed => Request::Nothing,
        }
    }

    /// The job once the host has reported on its action.
    pub open spec fn advance(self, ok: bool) -> Job {
        Job { path: self.path, line: self.line, stage: self.stage.after(ok) }
    }
}

/// The text of a file; of one that does not exist, no text.
pub open spec fn text_of(file: Option<Seq<char>>) -> Seq<char> {
    match file {
        Some(text) => text,
        None => Seq::<char>::empty(),
    }
}

/// Whether the action of `stage` succeeds on a file system that refuses
/// nothing: opening for appending succeeds exactly where the file exists,
/// and every other action succeeds. `file` is the text of the file at the
/// job's path, `None` where there is no such file.
pub open spec fn obliges(stage: Stage, file: Option<Seq<char>>) -> bool {
    match stage {
        Stage::Open => file is Some,
        _ => true,
    }
}

/// The file once the host has performed the job's action on such a file
/// system: creating leaves an empty file, writing adds the line and a
/// newline at the end, nothing else touches the file.
pub open spec fn performed(job: Job, file: Option<Seq<char>>) -> Option<Seq<char>> {
    match job.stage {
        Stage::Create => Some(Seq::<char>::empty()),
        Stage::Write => Some(text_of(file) + job.line + seq!['\n']),
        _ => file,
    }
}

/// The job and the file once the host has run the job to its end on a file
/// system that refuses nothing.
pub open spec fn run(job: Job, file: Option<Seq<char>>) -> (Job, Option<Seq<char>>)
    decreases job.stage.rank(),
{
    if job.stage.is_final() {
        (job, file)
    } else {
        run(job.advance(obliges(job.stage, file)), performed(job, file))
    }
}

/// The job once the host has run it with the given reports, one for each
/// action, for as long as there are reports and the job has not ended.
pub open spec fn run_with(job: Job, reports: Seq<bool>) -> Job
    decreases reports.len(),
{
    if reports.len() == 0 || job.stage.is_final() {
        job
    } else {
        run_with(job.advance(reports[0]), reports.drop_first())
    }
}

/// The appending of one line to one file, in progress.
#[derive(Debug, Clone)]
pub struct FileJob {
    path: String,
    line: String,
    stage: Stage,
}

impl View for FileJob {
    type V = Job;

    closed spec fn view(&self) -> Job {
        Job { path: self.path@, line: self.line@, stage: self.stage }
    }
}

impl FileJob {
    /// The job that appends `line` to the file at `path`, before its first
    /// step.
    pub fn new(path: String, line: String) -> (job: FileJob)
        ensures
            job@ == Job::start(path@, line@),
    {
        FileJob { path, line, stage: Stage::Open }
    }

    /// The path of the file.
    pub fn path(&self) -> (path: &str)
        ensures
            path@ == self@.path,
    {
        self.path.as_str()
    }

    /// The line to append, without its newline.
    pub fn line(&self) -> (line: &str)
        ensures
            line@ == self@.line,
    {
        self.line.as_str()
    }

    /// Where the job stands.
    pub fn stage(&self) -> (stage: Stage)
        ensures
            stage == self@.stage,
    {
        self.stage
    }

    /// Whether nothing is left for the host to perform, but to panic where
    /// the job has been given up.
    pub fn is_finished(&self) -> (done: bool)
        ensures
            done == self@.stage.is_final(),
    {
        match self.stage {
            Stage::Abort => true,
            Stage::Closed => true,
            _ => false,
        }
    }

    /// What the host is to do now.
    pub fn action(&self) -> (action: Action)
        ensures
            action@ == self@.request(),
    {
        match self.stage {
            Stage::Open => Action::OpenAppend { path: self.path.clone() },
            Stage::Create => Action::Create { path: self.path.clone() },
            Stage::Write => Action::WriteLine { line: self.line.clone() },
            Stage::Notice => Action::PrintLine {
                line: String::from_str("Failed to perform necessary steps"),
            },
            Stage::Abort => Action::Panic,
            Stage::Closed => Action::Nothing,
        }
    }

    /// The job after the host has performed the action and it has succeeded
    /// (`ok`) or failed.
    pub fn advance(self, ok: bool) -> (job: FileJob)
        ensures
            job@ == self@.advance(ok),
    {
        FileJob { path: self.path, line: self.line, stage: self.stage.next(ok) }
    }
}

} // verus!
