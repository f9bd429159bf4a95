//! One record, and its two renderings: the console line and the file line.

use vstd::prelude::*;
use vstd::string::*;
use crate::filejob::{FileJob, Job};
use crate::level::LogLevel;
use crate::markup::{Markup, Palette};
use crate::stamp::{Civil, Timestamp};

verus! {

/// The console line: bold; the timestamp in brackets, dimmed; the level in
/// brackets, in its color and with its padding; the message.
pub open spec fn console_text(
    marks: Markup,
    stamp: Seq<char>,
    level: LogLevel,
    message: Seq<char>,
) -> Seq<char> {
    marks.bold + marks.base + "["@ + marks.dim + stamp + marks.base + "]\t["@ + marks.tint
        + level.name() + level.padding() + marks.base + "] "@ + message
}

/// The file line: timestamp, level name and message, with the separator
/// between them.
pub open spec fn file_text(
    stamp: Seq<char>,
    name: Seq<char>,
    separator: Seq<char>,
    message: Seq<char>,
) -> Seq<char> {
    stamp + separator + name + separator + message
}

/// A record as plain data.
pub struct Record {
    pub stamp: Civil,
    pub level: LogLevel,
    pub message: Seq<char>,
    pub separator: Seq<char>,
    pub path: Seq<char>,
}

impl Record {
    /// The record's console line under the given marks.
    pub open spec fn console_line(self, marks: Markup) -> Seq<char> {
        console_text(marks, self.stamp.text(), self.level, self.message)
    }

    /// The record's line in the file.
    pub open spec fn file_line(self) -> Seq<char> {
        file_text(self.stamp.text(), self.level.name(), self.separator, self.message)
    }

    /// Whether `console` shows this record: its line under some marks that
    /// suit the level, and the exit status of the level.
    pub open spec fn shown_by(self, console: Console) -> bool {
        &&& console.exit_code == self.level.exit_status()
        &&& exists|marks: Markup| #[trigger]
            marks.suits(self.level) && console.line@ == self.console_line(marks)
    }

    /// The job that appends this record to its file.
    pub open spec fn job(self) -> Job {
        Job::start(self.path, self.file_line())
    }
}

/// What a record puts on the console.
#[derive(Debug, Clone, PartialEq, Eq)]
pub struct Console {
    /// The line to print, without its newline.
    pub line: String,
    /// The status to end the process with once the line is printed, if the
    /// record ends it.
    pub exit_code: Option<i32>,
}

/// One record: when, how severe, what, and where it goes.
#[derive(Debug, Clone)]
pub struct LogEntity {
    date_time: Timestamp,
    log_level: LogLevel,
    log_message: String,
    separator: String,
    path: String,
}

impl View for LogEntity {
    type V = Record;

    closed spec fn view(&self) -> Record {
        Record {
            stamp: self.date_time@,
            level: self.log_level,
            message: self.log_message@,
            separator: self.separator@,
            path: self.path@,
        }
    }
}

impl LogEntity {
    /// The record of message `lm` at level `ll` and moment `dt`, with
    /// separator `c`, for the file at `p`.
    pub fn new(dt: Timestamp, ll: LogLevel, lm: &str, c: String, p: &str) -> (entity: LogEntity)
        ensures
            entity@ == (Record { stamp: dt@, level: ll, message: lm@, separator: c@, path: p@ }),
    {
        LogEntity {
            date_time: dt,
            log_level: ll,
            log_message: String::from_str(lm),
            separator: c,
            path: String::from_str(p),
        }
    }

    /// The console line of the record under the given marks.
    pub fn render(&self, palette: &Palette) -> (line: String)
        ensures
            line@ == self@.console_line(palette@),
    {
        let stamp = self.date_time.text();
        let name = self.log_level.to_string();
        let mut line = palette.bold.clone();
        line.append(palette.base.as_str());
        line.append("[");
        line.append(palette.dim.as_str());
        line.append(stamp.as_str());
        line.append(palette.base.as_str());
        line.append("]\t[");
        line.append(palette.tint.as_str());
        line.append(name.as_str());
        line.append(self.log_level.console_padding());
        line.append(palette.base.as_str());
        line.append("] ");
        line.append(self.log_message.as_str());
        line
    }

    /// What the record puts on the console: its line, styled as the
    /// terminal library styles it in this process, and the exit status with
    /// which a fatal record ends the process once the line is printed.
    pub fn print(&self) -> (console: Console)
        ensures
            self@.shown_by(console),
    {
        let palette = Palette::for_level(self.log_level);
        let line = self.render(&palette);
        assert(palette@.suits(self@.level) && line@ == self@.console_line(palette@));
        Console { line, exit_code: self.log_level.exit_code() }
    }

    /// The job that appends the record's line to its file.
    pub fn write(&self) -> (job: FileJob)
        ensures
            job@ == self@.job(),
    {
        let name = self.log_level.to_string();
        let mut line = self.date_time.text();
        line.append(self.separator.as_str());
        line.append(name.as_str());
        line.append(self.separator.as_str());
        line.append(self.log_message.as_str());
        FileJob::new(self.path.clone(), line)
    }
}

} // verus!
