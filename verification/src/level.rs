//! Severity levels and what each one looks like.

use vstd::prelude::*;
use vstd::string::*;
use crate::markup::Color;

verus! {

/// The severity of a record.
#[derive(Debug, Clone, Copy, PartialEq, Eq, Structural)]
pub enum LogLevel {
    INFO,
    DEBUG,
    WARNING,
    ERROR,
    DONE,
    FATAL,
}

impl LogLevel {
    /// The name a level is shown under, on the console and in the file.
    pub open spec fn name(self) -> Seq<char> {
        match self {
            LogLevel::INFO => "INFO"@,
            LogLevel::DEBUG => "DEBUG"@,
            LogLevel::WARNING => "WARNING"@,
            LogLevel::ERROR => "ERROR"@,
            LogLevel::FATAL => "FATAL"@,
            LogLevel::DONE => "DONE"@,
        }
    }

    /// What stands between the name and the closing bracket on the console:
    /// a tab, except after the one name that fills the column by itself.
    pub open spec fn padding(self) -> Seq<char> {
        match self {
            LogLevel::WARNING => ""@,
            _ => "\t"@,
        }
    }

    /// The console color of a level.
    pub open spec fn tint(self) -> Color {
        match self {
            LogLevel::INFO => Color::Blue,
            LogLevel::DEBUG => Color::Magenta,
            LogLevel::WARNING => Color::Yellow,
            LogLevel::ERROR => Color::LightRed,
            LogLevel::FATAL => Color::Red,
            LogLevel::DONE => Color::Green,
        }
    }

    /// The exit status that a record of this level ends the process with,
    /// if it ends it at all.
    pub open spec fn exit_status(self) -> Option<i32> {
        match self {
            LogLevel::FATAL => Some(1i32),
            _ => None,
        }
    }

    /// The name of the level, as text.
    pub fn to_string(&self) -> (s: String)
        ensures
            s@ == self.name(),
    {
        match self {
            LogLevel::INFO => String::from_str("INFO"),
            LogLevel::DEBUG => String::from_str("DEBUG"),
            LogLevel::WARNING => String::from_str("WARNING"),
            LogLevel::ERROR => String::from_str("ERROR"),
            LogLevel::FATAL => String::from_str("FATAL"),
            LogLevel::DONE => String::from_str("DONE"),
        }
    }

    /// What the console puts between the name and the closing bracket.
    pub fn console_padding(&self) -> (s: &'static str)
        ensures
            s@ == self.padding(),
    {
        match self {
            LogLevel::WARNING => "",
            _ => "\t",
        }
    }

    /// The color that the console shows the level in.
    pub fn color(&self) -> (c: Color)
        ensures
            c == self.tint(),
    {
        match self {
            LogLevel::INFO => Color::Blue,
            LogLevel::DEBUG => Color::Magenta,
            LogLevel::WARNING => Color::Yellow,
            LogLevel::ERROR => Color::LightRed,
            LogLevel::FATAL => Color::Red,
            LogLevel::DONE => Color::Green,
        }
    }

    /// The status that a record of this level ends the process with: 1 for
    /// a fatal one, none for every other.
    pub fn exit_code(&self) -> (code: Option<i32>)
        ensures
            code == self.exit_status(),
    {
        match self {
            LogLevel::FATAL => Some(1),
            _ => None,
        }
    }
}

} // verus!
