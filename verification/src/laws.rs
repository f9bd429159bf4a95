//! What holds of the logger as a whole.

use vstd::prelude::*;
use crate::entity::{file_text, Record};
use crate::filejob::{run, run_with, text_of, Job, Stage};
use crate::level::LogLevel;
use crate::logger::{Dispatch, Settings};
use crate::markup::Markup;
use crate::stamp::Civil;
use crate::text::{
    contains, digits, every, find, is_capital, is_digit, is_one_line, join,
    lemma_digits_are_digits, lemma_every_concat, lemma_every_one_line, lemma_find_first,
    lemma_find_from, lemma_find_none, lemma_one_line_concat, lemma_split_nonempty, occurs_at,
    split,
};

verus! {

/// Whether `c` can stand in the text of a moment: a digit, a sign, or one of
/// the marks between the numbers.
pub open spec fn is_stamp_char(c: char) -> bool {
    is_digit(c) || c == '-' || c == '+' || c == ':' || c == ' '
}

/// The text of a moment holds digits, signs, colons and spaces only.
pub proof fn lemma_stamp_chars(stamp: Civil)
    ensures
        every(stamp.text(), |c: char| is_stamp_char(c)),
        is_one_line(stamp.text()),
{
    let allowed = |c: char| is_stamp_char(c);
    let year = stamp.year_text();
    let month = digits(stamp.month as nat, 2);
    let day = digits(stamp.day as nat, 2);
    let hour = digits(stamp.hour as nat, 2);
    let minute = digits(stamp.minute as nat, 2);
    let second = digits(stamp.second as nat, 2);
    assert forall|n: nat, width: nat| every(#[trigger] digits(n, width), allowed) by {
        lemma_digits_are_digits(n, width);
    }
    assert(every(year, allowed)) by {
        if stamp.year < 0 {
            lemma_every_concat(seq!['-'], digits((-stamp.year) as nat, 4), allowed);
        } else if stamp.year > 9999 {
            lemma_every_concat(seq!['+'], digits(stamp.year as nat, 4), allowed);
        }
    }
    let t1 = year + seq!['-'];
    let t2 = t1 + month;
    let t3 = t2 + seq!['-'];
    let t4 = t3 + day;
    let t5 = t4 + seq![' '];
    let t6 = t5 + hour;
    let t7 = t6 + seq![':'];
    let t8 = t7 + minute;
    let t9 = t8 + seq![':'];
    lemma_every_concat(year, seq!['-'], allowed);
    lemma_every_concat(t1, month, allowed);
    lemma_every_concat(t2, seq!['-'], allowed);
    lemma_every_concat(t3, day, allowed);
    lemma_every_concat(t4, seq![' '], allowed);
    lemma_every_concat(t5, hour, allowed);
    lemma_every_concat(t6, seq![':'], allowed);
    lemma_every_concat(t7, minute, allowed);
    lemma_every_concat(t8, seq![':'], allowed);
    lemma_every_concat(t9, second, allowed);
    lemma_every_one_line(stamp.text(), allowed);
}

/// The name of a level is made of capital letters, at least one.
pub proof fn lemma_name_chars(level: LogLevel)
    ensures
        every(level.name(), |c: char| is_capital(c)),
        level.name().len() >= 1,
        is_one_line(level.name()),
        is_one_line(level.padding()),
{
    reveal_strlit("INFO");
    reveal_strlit("DEBUG");
    reveal_strlit("WARNING");
    reveal_strlit("ERROR");
    reveal_strlit("FATAL");
    reveal_strlit("DONE");
    reveal_strlit("\t");
    reveal_strlit("");
    lemma_every_one_line(level.name(), |c: char| is_capital(c));
}

/// No mark breaks the line.
pub proof fn lemma_marks_one_line(marks: Markup, level: LogLevel)
    requires
        marks.suits(level),
    ensures
        is_one_line(marks.bold),
        is_one_line(marks.base),
        is_one_line(marks.dim),
        is_one_line(marks.tint),
{
    reveal_strlit("\x1B[1m");
    reveal_strlit("\x1B[38;5;7m");
    reveal_strlit("\x1B[38;5;8m");
    reveal_strlit("\x1B[38;5;4m");
    reveal_strlit("\x1B[38;5;5m");
    reveal_strlit("\x1B[38;5;3m");
    reveal_strlit("\x1B[38;5;9m");
    reveal_strlit("\x1B[38;5;1m");
    reveal_strlit("\x1B[38;5;2m");
}

/// A record's console line stays on one line exactly where its message
/// does, and it holds the text of the moment and the message.
pub proof fn lemma_console_line(record: Record, marks: Markup)
    requires
        marks.suits(record.level),
    ensures
        is_one_line(record.console_line(marks)) <==> is_one_line(record.message),
        contains(record.console_line(marks), record.stamp.text()),
        contains(record.console_line(marks), record.message),
{
    let stamp = record.stamp.text();
    let level = record.level;
    lemma_stamp_chars(record.stamp);
    lemma_name_chars(level);
    lemma_marks_one_line(marks, level);
    reveal_strlit("[");
    reveal_strlit("]\t[");
    reveal_strlit("] ");
    let t1 = marks.bold + marks.base;
    let t2 = t1 + "["@;
    let t3 = t2 + marks.dim;
    let t4 = t3 + stamp;
    let t5 = t4 + marks.base;
    let t6 = t5 + "]\t["@;
    let t7 = t6 + marks.tint;
    let t8 = t7 + level.name();
    let t9 = t8 + level.padding();
    let t10 = t9 + marks.base;
    let t11 = t10 + "] "@;
    let line = t11 + record.message;
    assert(line == record.console_line(marks));
    lemma_one_line_concat(marks.bold, marks.base);
    lemma_one_line_concat(t1, "["@);
    lemma_one_line_concat(t2, marks.dim);
    lemma_one_line_concat(t3, stamp);
    lemma_one_line_concat(t4, marks.base);
    lemma_one_line_concat(t5, "]\t["@);
    lemma_one_line_concat(t6, marks.tint);
    lemma_one_line_concat(t7, level.name());
    lemma_one_line_concat(t8, level.padding());
    lemma_one_line_concat(t9, marks.base);
    lemma_one_line_concat(t10, "] "@);
    lemma_one_line_concat(t11, record.message);
    assert(occurs_at(line, stamp, t3.len() as int)) by {
        assert(line.subrange(t3.len() as int, t3.len() as int + stamp.len()) =~= stamp);
    }
    assert(occurs_at(line, record.message, t11.len() as int)) by {
        assert(line.subrange(t11.len() as int, t11.len() as int + record.message.len())
            =~= record.message);
    }
}

/// A record's file line stays on one line exactly where its separator and
/// its message do, and it holds the text of the moment and the message.
pub proof fn lemma_file_line(record: Record)
    ensures
        is_one_line(record.file_line()) <==> is_one_line(record.separator) && is_one_line(
            record.message,
        ),
        contains(record.file_line(), record.stamp.text()),
        contains(record.file_line(), record.message),
{
    let stamp = record.stamp.text();
    let name = record.level.name();
    let separator = record.separator;
    lemma_stamp_chars(record.stamp);
    lemma_name_chars(record.level);
    let t1 = stamp + separator;
    let t2 = t1 + name;
    let t3 = t2 + separator;
    let line = t3 + record.message;
    assert(line == record.file_line());
    lemma_one_line_concat(stamp, separator);
    lemma_one_line_concat(t1, name);
    lemma_one_line_concat(t2, separator);
    lemma_one_line_concat(t3, record.message);
    assert(occurs_at(line, stamp, 0)) by {
        assert(line.subrange(0, stamp.len() as int) =~= stamp);
    }
    assert(occurs_at(line, record.message, t3.len() as int)) by {
        assert(line.subrange(t3.len() as int, t3.len() as int + record.message.len())
            =~= record.message);
    }
}

/// A record that does not end the process goes out as one console line and
/// one file line, each with the text of the same moment and with the
/// message: the process goes on, the file job is there, and each of the two
/// texts stays on one line wherever the texts it is made of do.
pub proof fn lemma_one_line_each(record: Record, dispatch: Dispatch)
    requires
        record.dispatched_as(dispatch),
        record.level != LogLevel::FATAL,
    ensures
        dispatch.console.exit_code is None,
        dispatch.file is Some,
        dispatch.file->0@ == Job::start(record.path, record.file_line()),
        is_one_line(dispatch.console.line@) <==> is_one_line(record.message),
        is_one_line(dispatch.file->0@.line) <==> is_one_line(record.separator) && is_one_line(
            record.message,
        ),
        contains(dispatch.console.line@, record.stamp.text()),
        contains(dispatch.console.line@, record.message),
        contains(dispatch.file->0@.line, record.stamp.text()),
        contains(dispatch.file->0@.line, record.message),
{
    let marks = choose|marks: Markup| #[trigger]
        marks.suits(record.level) && dispatch.console.line@ == record.console_line(marks);
    lemma_console_line(record, marks);
    lemma_file_line(record);
}

/// A record that ends the process is shown on the console and never reaches
/// the file: the dispatch carries exit status 1 and no file job.
pub proof fn lemma_fatal_stops_before_the_file(record: Record, dispatch: Dispatch)
    requires
        record.dispatched_as(dispatch),
        record.level == LogLevel::FATAL,
    ensures
        dispatch.console.exit_code == Some(1i32),
        dispatch.file is None,
        contains(dispatch.console.line@, record.message),
{
    let marks = choose|marks: Markup| #[trigger]
        marks.suits(record.level) && dispatch.console.line@ == record.console_line(marks);
    lemma_console_line(record, marks);
}

/// Whether `separator` begins somewhere in the first `len` characters of
/// `text`.
pub open spec fn begins_within(text: Seq<char>, separator: Seq<char>, len: int) -> bool {
    exists|at: int| 0 <= at < len && occurs_at(text, separator, at)
}

/// A file line splits by its separator into the three fields it was made
/// of, and joining them gives the line back. This holds exactly of a
/// separator that is not empty, does not occur in the message, and begins
/// neither inside the timestamp nor inside the level name.
pub proof fn lemma_file_line_round_trip(
    stamp: Seq<char>,
    name: Seq<char>,
    separator: Seq<char>,
    message: Seq<char>,
)
    ensures
        join(seq![stamp, name, message], separator) == file_text(stamp, name, separator, message),
        split(file_text(stamp, name, separator, message), separator) == seq![stamp, name, message]
            <==> {
            &&& separator.len() > 0
            &&& !contains(message, separator)
            &&& !begins_within(
                file_text(stamp, name, separator, message),
                separator,
                stamp.len() as int,
            )
            &&& !begins_within(name + separator + message, separator, name.len() as int)
        },
{
    let line = file_text(stamp, name, separator, message);
    let rest = name + separator + message;
    let fields = seq![stamp, name, message];
    assert(join(fields, separator) == line) by {
        let two = seq![name, message];
        let one = seq![message];
        assert(fields.drop_first() =~= two);
        assert(two.drop_first() =~= one);
        assert(join(one, separator) == message);
        assert(join(two, separator) == name + separator + message);
        assert(stamp + separator + (name + separator + message) =~= line);
    }
    if separator.len() > 0 {
        lemma_find_from_facts(line, separator);
        lemma_find_from_facts(rest, separator);
        lemma_find_none(message, separator);
        assert(occurs_at(line, separator, stamp.len() as int)) by {
            assert(line.subrange(stamp.len() as int, stamp.len() as int + separator.len())
                =~= separator);
        }
        assert(occurs_at(rest, separator, name.len() as int)) by {
            assert(rest.subrange(name.len() as int, name.len() as int + separator.len())
                =~= separator);
        }
        assert(line.subrange(stamp.len() as int + separator.len(), line.len() as int) =~= rest);
        assert(rest.subrange(name.len() as int + separator.len(), rest.len() as int) =~= message);
        assert(line.subrange(0, stamp.len() as int) =~= stamp);
        assert(rest.subrange(0, name.len() as int) =~= name);
        let clean = {
            &&& !contains(message, separator)
            &&& !begins_within(line, separator, stamp.len() as int)
            &&& !begins_within(rest, separator, name.len() as int)
        };
        if clean {
            lemma_find_first(line, separator, stamp.len() as int);
            lemma_find_first(rest, separator, name.len() as int);
            assert(split(message, separator) == seq![message]);
            assert(split(rest, separator) == seq![name] + seq![message]);
            assert(split(line, separator) == seq![stamp] + (seq![name] + seq![message]));
            assert(seq![stamp] + (seq![name] + seq![message]) =~= fields);
        }
        if split(line, separator) == fields {
            let first = find(line, separator)->0;
            let tail = line.subrange(first + separator.len(), line.len() as int);
            assert(split(line, separator) == seq![line.subrange(0, first)] + split(
                tail,
                separator,
            ));
            assert(split(line, separator)[0] == line.subrange(0, first));
            assert(first == stamp.len());
            assert(split(tail, separator) =~= fields.drop_first());
            assert(tail == rest);
            let second = find(rest, separator)->0;
            let end = rest.subrange(second + separator.len(), rest.len() as int);
            assert(split(rest, separator) == seq![rest.subrange(0, second)] + split(
                end,
                separator,
            ));
            assert(split(rest, separator)[0] == rest.subrange(0, second));
            assert(second == name.len());
            assert(split(end, separator) =~= fields.drop_first().drop_first());
            assert(end == message);
            lemma_find_from_facts(message, separator);
            if find(message, separator) is Some {
                let third = find(message, separator)->0;
                lemma_split_nonempty(
                    message.subrange(third + separator.len(), message.len() as int),
                    separator,
                );
            }
        }
    } else {
        assert(split(line, separator).len() == 1);
    }
}

/// In a text, what `find` finds is an occurrence with none before it.
proof fn lemma_find_from_facts(text: Seq<char>, pattern: Seq<char>)
    ensures
        match find(text, pattern) {
            Some(at) => {
                &&& occurs_at(text, pattern, at)
                &&& forall|j: int| 0 <= j < at ==> !occurs_at(text, pattern, j)
            },
            None => !contains(text, pattern),
        },
{
    lemma_find_from(text, pattern, 0);
}

/// With a separator that begins with a character that is no digit, sign,
/// colon, space or capital letter, such as `|` or `,`, the file line of any
/// record whose message does not hold the separator splits into timestamp,
/// level name and message.
pub proof fn lemma_plain_separator_splits(record: Record)
    requires
        record.separator.len() > 0,
        !is_stamp_char(record.separator[0]),
        !is_capital(record.separator[0]),
        !contains(record.message, record.separator),
    ensures
        split(record.file_line(), record.separator) == seq![
            record.stamp.text(),
            record.level.name(),
            record.message,
        ],
{
    let stamp = record.stamp.text();
    let name = record.level.name();
    let separator = record.separator;
    let line = record.file_line();
    let rest = name + separator + record.message;
    lemma_stamp_chars(record.stamp);
    lemma_name_chars(record.level);
    assert forall|at: int| 0 <= at < stamp.len() implies !occurs_at(line, separator, at) by {
        if occurs_at(line, separator, at) {
            assert(line.subrange(at, at + separator.len())[0] == separator[0]);
            assert(line[at] == stamp[at]);
        }
    }
    assert forall|at: int| 0 <= at < name.len() implies !occurs_at(rest, separator, at) by {
        if occurs_at(rest, separator, at) {
            assert(rest.subrange(at, at + separator.len())[0] == separator[0]);
            assert(rest[at] == name[at]);
        }
    }
    lemma_file_line_round_trip(stamp, name, separator, record.message);
}

/// A directory resolves to the same log file with and without a slash at
/// its end.
pub proof fn lemma_trailing_slash_is_optional(plain: Settings, slashed: Settings)
    requires
        plain.path.len() > 0,
        plain.path.last() != '/',
        slashed.path == plain.path + seq!['/'],
        slashed.service == plain.service,
        slashed.extension == plain.extension,
    ensures
        slashed.log_path() == plain.log_path(),
{
}

/// On a file system that refuses nothing, a job ends with the file holding
/// what it held before, then the line and a newline: a file that was not
/// there holds that one line, and one that was there is never emptied.
pub proof fn lemma_append_or_create(path: Seq<char>, line: Seq<char>, file: Option<Seq<char>>)
    ensures
        run(Job::start(path, line), file).0.stage == Stage::Closed,
        run(Job::start(path, line), file).1 == Some(text_of(file) + line + seq!['\n']),
{
    let start = Job::start(path, line);
    match file {
        Some(text) => {
            let writing = start.advance(true);
            assert(run(start, file) == run(writing, file));
            let closed = writing.advance(true);
            assert(run(writing, file) == run(closed, Some(text + line + seq!['\n'])));
        },
        None => {
            let creating = start.advance(false);
            assert(run(start, file) == run(creating, file));
            let writing = creating.advance(true);
            let empty = Some(Seq::<char>::empty());
            assert(run(creating, file) == run(writing, empty));
            let closed = writing.advance(true);
            assert(run(writing, empty) == run(closed, Some(text_of(empty) + line + seq!['\n'])));
        },
    }
}

/// The file after the jobs of `records` have been run one after the other,
/// each to its end, on a file system that refuses nothing.
pub open spec fn run_each(records: Seq<Record>, file: Option<Seq<char>>) -> Option<Seq<char>>
    decreases records.len(),
{
    if records.len() == 0 {
        file
    } else {
        run_each(records.drop_first(), run(records[0].job(), file).1)
    }
}

/// The file lines of `records` in a row, each with a newline at its end.
pub open spec fn file_lines(records: Seq<Record>) -> Seq<char>
    decreases records.len(),
{
    if records.len() == 0 {
        Seq::<char>::empty()
    } else {
        records[0].file_line() + seq!['\n'] + file_lines(records.drop_first())
    }
}

/// On a file system that refuses nothing, the jobs of any number of records
/// leave the file holding what it held before, then one line for each
/// record, in the order of the records: nothing that was written is
/// overwritten.
pub proof fn lemma_appends_in_order(records: Seq<Record>, file: Option<Seq<char>>)
    requires
        records.len() > 0,
    ensures
        run_each(records, file) == Some(text_of(file) + file_lines(records)),
    decreases records.len(),
{
    let first = records[0];
    let others = records.drop_first();
    lemma_append_or_create(first.path, first.file_line(), file);
    let next = run(first.job(), file).1;
    if others.len() == 0 {
        assert(run_each(others, next) == next);
        assert(file_lines(others) == Seq::<char>::empty());
        assert(text_of(file) + first.file_line() + seq!['\n'] =~= text_of(file) + file_lines(
            records,
        ));
    } else {
        lemma_appends_in_order(others, next);
        assert(text_of(next) + file_lines(others) =~= text_of(file) + file_lines(records));
    }
}

/// Whatever the host reports, a job has ended after four reports.
pub proof fn lemma_job_ends(job: Job, reports: Seq<bool>)
    requires
        reports.len() >= job.stage.rank(),
    ensures
        run_with(job, reports).stage.is_final(),
        run_with(job, reports).path == job.path,
        run_with(job, reports).line == job.line,
    decreases reports.len(),
{
    if reports.len() == 0 || job.stage.is_final() {
    } else {
        lemma_job_ends(job.advance(reports[0]), reports.drop_first());
    }
}

} // verus!
