//! The logger: where the records of one service go, and one entry point per
//! level.

use vstd::prelude::*;
use vstd::string::*;
use crate::entity::{Console, LogEntity, Record};
use crate::filejob::FileJob;
use crate::level::LogLevel;
use crate::stamp::{Civil, Timestamp};

verus! {

/// `base` with a slash at its end: as it is where it ends in one, with one
/// added where it does not.
pub open spec fn with_trailing_slash(base: Seq<char>) -> Seq<char> {
    if base.len() > 0 && base.last() == '/' {
        base
    } else {
        base + seq!['/']
    }
}

/// The path of a service's log file: directory, service name, extension.
pub open spec fn resolved_path(base: Seq<char>, service: Seq<char>, extension: Seq<char>) -> Seq<
    char,
> {
    with_trailing_slash(base) + service + extension
}

/// A logger as plain data.
pub struct Settings {
    pub path: Seq<char>,
    pub extension: Seq<char>,
    pub service: Seq<char>,
    pub separator: Seq<char>,
}

impl Settings {
    /// The path of the log file.
    pub open spec fn log_path(self) -> Seq<char> {
        resolved_path(self.path, self.service, self.extension)
    }

    /// The record that this logger makes of a message.
    pub open spec fn record(self, stamp: Civil, level: LogLevel, message: Seq<char>) -> Record {
        Record { stamp, level, message, separator: self.separator, path: self.log_path() }
    }

    /// Whether `out` is what this logger hands out for a message at `level`
    /// when the clock reads `reading`: the dispatch of the record made of
    /// the message at that moment where the reading is a day of the
    /// calendar, and nothing where it is none.
    pub open spec fn logged_at(
        self,
        reading: Civil,
        level: LogLevel,
        message: Seq<char>,
        out: Option<Dispatch>,
    ) -> bool {
        &&& reading.is_reading()
        &&& out is Some <==> reading.is_calendar()
        &&& out is Some ==> self.record(reading, level, message).dispatched_as(out->0)
    }

    /// Whether `out` is what this logger hands out for a message at `level`:
    /// what it hands out at some reading of the clock.
    pub open spec fn logged(self, level: LogLevel, message: Seq<char>, out: Option<Dispatch>)
        -> bool {
        exists|reading: Civil| #[trigger] self.logged_at(reading, level, message, out)
    }
}

impl Record {
    /// Whether `dispatch` is how this record goes out: shown on the console,
    /// then appended to its file; when the record ends the process, shown
    /// only.
    pub open spec fn dispatched_as(self, dispatch: Dispatch) -> bool {
        &&& self.shown_by(dispatch.console)
        &&& match dispatch.file {
            Some(job) => self.level.exit_status() is None && job@ == self.job(),
            None => self.level.exit_status() is Some,
        }
    }
}

/// How one record goes out. The host prints the console line; it ends the
/// process where an exit code is set; otherwise it runs the file job.
#[derive(Debug, Clone)]
pub struct Dispatch {
    pub console: Console,
    /// The job for the log file; none for a record that ends the process.
    pub file: Option<FileJob>,
}

/// The configuration of a service's log.
#[derive(Debug, Clone)]
pub struct Log {
    path: String,
    extension: String,
    service: String,
    separation_char: String,
}

impl View for Log {
    type V = Settings;

    closed spec fn view(&self) -> Settings {
        Settings {
            path: self.path@,
            extension: self.extension@,
            service: self.service@,
            separator: self.separation_char@,
        }
    }
}

impl Log {
    /// The logger of service `s`: its file lies in directory `p` and has
    /// extension `e`; `c` separates the fields of a line. Nothing is checked.
    pub fn new(p: &str, e: &str, s: &str, c: &str) -> (log: Log)
        ensures
            log@ == (Settings { path: p@, extension: e@, service: s@, separator: c@ }),
    {
        Log {
            path: String::from_str(p),
            extension: String::from_str(e),
            service: String::from_str(s),
            separation_char: String::from_str(c),
        }
    }

    /// The dispatch of `log` at level INFO, stamped with the local time that
    /// the clock shows; `None` where the clock shows no day of the calendar.
    pub fn info(&self, log: &str) -> (out: Option<Dispatch>)
        requires
            self@.path.len() > 0,
        ensures
            self@.logged(LogLevel::INFO, log@, out),
    {
        self.at_level(LogLevel::INFO, log)
    }

    /// The dispatch of `log` at level WARNING, stamped with the local time that
    /// the clock shows; `None` where the clock shows no day of the calendar.
    pub fn warning(&self, log: &str) -> (out: Option<Dispatch>)
        requires
            self@.path.len() > 0,
        ensures
            self@.logged(LogLevel::WARNING, log@, out),
    {
        self.at_level(LogLevel::WARNING, log)
    }

    /// The dispatch of `log` at level ERROR, stamped with the local time that
    /// the clock shows; `None` where the clock shows no day of the calendar.
    pub fn error(&self, log: &str) -> (out: Option<Dispatch>)
        requires
            self@.path.len() > 0,
        ensures
            self@.logged(LogLevel::ERROR, log@, out),
    {
        self.at_level(LogLevel::ERROR, log)
    }

    /// The dispatch of `log` at level FATAL, stamped with the local time that
    /// the clock shows; `None` where the clock shows no day of the calendar. The
    /// dispatch ends the process with status 1 once the line is printed, and
    /// holds no file job.
    pub fn fatal(&self, log: &str) -> (out: Option<Dispatch>)
        requires
            self@.path.len() > 0,
        ensures
            self@.logged(LogLevel::FATAL, log@, out),
    {
        self.at_level(LogLevel::FATAL, log)
    }

    /// The dispatch of `log` at level DEBUG, stamped with the local time that
    /// the clock shows; `None` where the clock shows no day of the calendar.
    pub fn debug(&self, log: &str) -> (out: Option<Dispatch>)
        requires
            self@.path.len() > 0,
        ensures
            self@.logged(LogLevel::DEBUG, log@, out),
    {
        self.at_level(LogLevel::DEBUG, log)
    }

    /// The dispatch of `log` at level DONE, stamped with the local time that
    /// the clock shows; `None` where the clock shows no day of the calendar.
    pub fn done(&self, log: &str) -> (out: Option<Dispatch>)
        requires
            self@.path.len() > 0,
        ensures
            self@.logged(LogLevel::DONE, log@, out),
    {
        self.at_level(LogLevel::DONE, log)
    }

    /// The dispatch of a message at `level`, stamped with the local time
    /// that the clock shows; `None` where the clock shows no day of the
    /// calendar.
    fn at_level(&self, level: LogLevel, log: &str) -> (out: Option<Dispatch>)
        requires
            self@.path.len() > 0,
        ensures
            self@.logged(level, log@, out),
    {
        let moment = Timestamp::now();
        let ghost reading = choose|reading: Civil| #[trigger] reading.read_as(moment);
        let out = match moment {
            Some(now) => Some(self.stamped(now, level, log)),
            None => None,
        };
        assert(self@.logged_at(reading, level, log@, out));
        out
    }

    /// The dispatch of a message at `level`, stamped with `now`.
    pub fn stamped(&self, now: Timestamp, level: LogLevel, log: &str) -> (dispatch: Dispatch)
        requires
            self@.path.len() > 0,
        ensures
            self@.record(now@, level, log@).dispatched_as(dispatch),
    {
        let log_entity = LogEntity::new(
            now,
            level,
            log,
            self.separation_char.clone(),
            self.create_log_path().as_str(),
        );
        self.processing(log_entity)
    }

    /// The directory that the log file lies in, as it was given.
    pub fn path(&self) -> (path: &str)
        ensures
            path@ == self@.path,
    {
        self.path.as_str()
    }

    /// How the record goes out: to the console, then to its file. A record
    /// that ends the process never reaches the file.
    pub fn processing(&self, log_e: LogEntity) -> (dispatch: Dispatch)
        ensures
            log_e@.dispatched_as(dispatch),
    {
        let console = log_e.print();
        let file = match console.exit_code {
            Some(_) => None,
            None => Some(log_e.write()),
        };
        Dispatch { console, file }
    }

    /// The path of the log file: the directory, with a slash added where it
    /// does not end in one, then the service name and the extension.
    pub fn create_log_path(&self) -> (log_path: String)
        requires
            self@.path.len() > 0,
        ensures
            log_path@ == self@.log_path(),
    {
        let length = self.path.as_str().unicode_len();
        let last_char = self.path.as_str().get_char(length - 1);
        let mut log_path = self.path.clone();
        if last_char != '/' {
            proof {
                reveal_strlit("/");
                assert("/"@ =~= seq!['/']);
            }
            log_path.append("/");
        }
        log_path.append(self.service.as_str());
        log_path.append(self.extension.as_str());
        log_path
    }
}

} // verus!
