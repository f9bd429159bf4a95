//! Console markup: the escape sequences that style a line.

use vstd::prelude::*;
use vstd::string::*;
use crate::level::LogLevel;

verus! {

/// The foreground colors a console line uses.
#[derive(Debug, Clone, Copy, PartialEq, Eq, Structural)]
pub enum Color {
    White,
    LightBlack,
    Blue,
    Magenta,
    Yellow,
    LightRed,
    Red,
    Green,
}

impl Color {
    /// The escape sequence that switches the foreground to this color.
    pub open spec fn code(self) -> Seq<char> {
        match self {
            Color::White => "\x1B[38;5;7m"@,
            Color::LightBlack => "\x1B[38;5;8m"@,
            Color::Blue => "\x1B[38;5;4m"@,
            Color::Magenta => "\x1B[38;5;5m"@,
            Color::Yellow => "\x1B[38;5;3m"@,
            Color::LightRed => "\x1B[38;5;9m"@,
            Color::Red => "\x1B[38;5;1m"@,
            Color::Green => "\x1B[38;5;2m"@,
        }
    }

    /// What may stand for a color on the console: its escape sequence, or
    /// nothing where colors are switched off.
    pub open spec fn shown_as(self, mark: Seq<char>) -> bool {
        mark == self.code() || mark == Seq::<char>::empty()
    }

    /// The mark to print for this color.
    pub fn fg(&self) -> (mark: String)
        ensures
            self.shown_as(mark@),
    {
        match self {
            Color::White => fg_white(),
            Color::LightBlack => fg_light_black(),
            Color::Blue => fg_blue(),
            Color::Magenta => fg_magenta(),
            Color::Yellow => fg_yellow(),
            Color::LightRed => fg_light_red(),
            Color::Red => fg_red(),
            Color::Green => fg_green(),
        }
    }
}

/// The marks that style one console line, as text.
pub struct Markup {
    /// Switches to bold text.
    pub bold: Seq<char>,
    /// Switches to the color of brackets and message.
    pub base: Seq<char>,
    /// Switches to the color of the timestamp.
    pub dim: Seq<char>,
    /// Switches to the color of the level.
    pub tint: Seq<char>,
}

impl Markup {
    /// Whether these are marks for a line of `level`: bold, then white, gray
    /// and the level's color, each as its escape sequence or left out.
    pub open spec fn suits(self, level: LogLevel) -> bool {
        &&& self.bold == bold_code()
        &&& Color::White.shown_as(self.base)
        &&& Color::LightBlack.shown_as(self.dim)
        &&& level.tint().shown_as(self.tint)
    }
}

/// The marks that style one console line.
pub struct Palette {
    pub bold: String,
    pub base: String,
    pub dim: String,
    pub tint: String,
}

impl View for Palette {
    type V = Markup;

    open spec fn view(&self) -> Markup {
        Markup { bold: self.bold@, base: self.base@, dim: self.dim@, tint: self.tint@ }
    }
}

impl Palette {
    /// The marks for a line of `level`, as the terminal library gives them
    /// in this process.
    pub fn for_level(level: LogLevel) -> (palette: Palette)
        ensures
            palette@.suits(level),
    {
        Palette {
            bold: bold(),
            base: Color::White.fg(),
            dim: Color::LightBlack.fg(),
            tint: level.color().fg(),
        }
    }
}

/// The escape sequence for bold text.
pub open spec fn bold_code() -> Seq<char> {
    "\x1B[1m"@
}

/// `termion::style::Bold`, displayed: always the sequence for bold text.
#[verifier::external_body]
fn bold() -> (mark: String)
    ensures
        mark@ == bold_code(),
{
    format!("{}", termion::style::Bold)
}

/// `termion::color::Fg(termion::color::White)`, displayed: the 256-color
/// sequence for color 7, or nothing when `NO_COLOR` is set in the
/// environment.
#[verifier::external_body]
fn fg_white() -> (mark: String)
    ensures
        mark@ == "\x1B[38;5;7m"@ || mark@ == Seq::<char>::empty(),
{
    format!("{}", termion::color::Fg(termion::color::White))
}

/// `termion::color::Fg(termion::color::LightBlack)`, displayed: the
/// 256-color sequence for color 8, or nothing when `NO_COLOR` is set.
#[verifier::external_body]
fn fg_light_black() -> (mark: String)
    ensures
        mark@ == "\x1B[38;5;8m"@ || mark@ == Seq::<char>::empty(),
{
    format!("{}", termion::color::Fg(termion::color::LightBlack))
}

/// `termion::color::Fg(termion::color::Blue)`, displayed: the 256-color
/// sequence for color 4, or nothing when `NO_COLOR` is set.
#[verifier::external_body]
fn fg_blue() -> (mark: String)
    ensures
        mark@ == "\x1B[38;5;4m"@ || mark@ == Seq::<char>::empty(),
{
    format!("{}", termion::color::Fg(termion::color::Blue))
}

/// `termion::color::Fg(termion::color::Magenta)`, displayed: the 256-color
/// sequence for color 5, or nothing when `NO_COLOR` is set.
#[verifier::external_body]
fn fg_magenta() -> (mark: String)
    ensures
        mark@ == "\x1B[38;5;5m"@ || mark@ == Seq::<char>::empty(),
{
    format!("{}", termion::color::Fg(termion::color::Magenta))
}

/// `termion::color::Fg(termion::color::Yellow)`, displayed: the 256-color
/// sequence for color 3, or nothing when `NO_COLOR` is set.
#[verifier::external_body]
fn fg_yellow() -> (mark: String)
    ensures
        mark@ == "\x1B[38;5;3m"@ || mark@ == Seq::<char>::empty(),
{
    format!("{}", termion::color::Fg(termion::color::Yellow))
}

/// `termion::color::Fg(termion::color::LightRed)`, displayed: the 256-color
/// sequence for color 9, or nothing when `NO_COLOR` is set.
#[verifier::external_body]
fn fg_light_red() -> (mark: String)
    ensures
        mark@ == "\x1B[38;5;9m"@ || mark@ == Seq::<char>::empty(),
{
    format!("{}", termion::color::Fg(termion::color::LightRed))
}

/// `termion::color::Fg(termion::color::Red)`, displayed: the 256-color
/// sequence for color 1, or nothing when `NO_COLOR` is set.
#[verifier::external_body]
fn fg_red() -> (mark: String)
    ensures
        mark@ == "\x1B[38;5;1m"@ || mark@ == Seq::<char>::empty(),
{
    format!("{}", termion::color::Fg(termion::color::Red))
}

/// `termion::color::Fg(termion::color::Green)`, displayed: the 256-color
/// sequence for color 2, or nothing when `NO_COLOR` is set.
#[verifier::external_body]
fn fg_green() -> (mark: String)
    ensures
        mark@ == "\x1B[38;5;2m"@ || mark@ == Seq::<char>::empty(),
{
    format!("{}", termion::color::Fg(termion::color::Green))
}

} // verus!
