//! Character sequences: decimal digits, search for a pattern, splitting and
//! joining on a separator.

use vstd::prelude::*;

verus! {

/// The character of one decimal digit.
pub open spec fn digit_char(d: int) -> char {
    if d == 0 {
        '0'
    } else if d == 1 {
        '1'
    } else if d == 2 {
        '2'
    } else if d == 3 {
        '3'
    } else if d == 4 {
        '4'
    } else if d == 5 {
        '5'
    } else if d == 6 {
        '6'
    } else if d == 7 {
        '7'
    } else if d == 8 {
        '8'
    } else {
        '9'
    }
}

/// The decimal digits of `n`, padded with leading zeros to at least `width`
/// characters.
pub open spec fn digits(n: nat, width: nat) -> Seq<char>
    decreases n, width,
{
    if n < 10 && width <= 1 {
        seq![digit_char(n as int)]
    } else {
        digits(n / 10, (width - 1) as nat).push(digit_char((n % 10) as int))
    }
}

/// Whether `c` is a decimal digit.
pub open spec fn is_digit(c: char) -> bool {
    '0' <= c && c <= '9'
}

/// Whether `c` is a capital letter of the basic alphabet.
pub open spec fn is_capital(c: char) -> bool {
    'A' <= c && c <= 'Z'
}

/// Whether every character of `text` is an allowed one.
pub open spec fn every(text: Seq<char>, allowed: spec_fn(char) -> bool) -> bool {
    forall|i: int| 0 <= i < text.len() ==> allowed(#[trigger] text[i])
}

/// Whether `text` stays on one line: it holds no newline.
pub open spec fn is_one_line(text: Seq<char>) -> bool {
    !text.contains('\n')
}

/// Two texts in a row hold allowed characters only exactly where each does.
pub proof fn lemma_every_concat(a: Seq<char>, b: Seq<char>, allowed: spec_fn(char) -> bool)
    ensures
        every(a + b, allowed) <==> every(a, allowed) && every(b, allowed),
{
    if every(a + b, allowed) {
        assert forall|i: int| 0 <= i < a.len() implies allowed(#[trigger] a[i]) by {
            assert((a + b)[i] == a[i]);
        }
        assert forall|i: int| 0 <= i < b.len() implies allowed(#[trigger] b[i]) by {
            assert((a + b)[a.len() + i] == b[i]);
        }
    }
}

/// Two texts in a row stay on one line exactly where each does.
pub proof fn lemma_one_line_concat(a: Seq<char>, b: Seq<char>)
    ensures
        is_one_line(a + b) <==> is_one_line(a) && is_one_line(b),
{
    if a.contains('\n') {
        let i = choose|i: int| 0 <= i < a.len() && a[i] == '\n';
        assert((a + b)[i] == '\n');
    }
    if b.contains('\n') {
        let i = choose|i: int| 0 <= i < b.len() && b[i] == '\n';
        assert((a + b)[a.len() + i] == '\n');
    }
    if (a + b).contains('\n') {
        let i = choose|i: int| 0 <= i < (a + b).len() && (a + b)[i] == '\n';
        if i < a.len() {
            assert(a[i] == '\n');
        } else {
            assert(b[i - a.len()] == '\n');
        }
    }
}

/// A text of characters among which the newline is not allowed stays on one
/// line.
pub proof fn lemma_every_one_line(text: Seq<char>, allowed: spec_fn(char) -> bool)
    requires
        every(text, allowed),
        !allowed('\n'),
    ensures
        is_one_line(text),
{
}

/// The digits of a number are digits.
pub proof fn lemma_digits_are_digits(n: nat, width: nat)
    ensures
        every(digits(n, width), |c: char| is_digit(c)),
        digits(n, width).len() >= 1,
    decreases n, width,
{
    if n < 10 && width <= 1 {
    } else {
        lemma_digits_are_digits(n / 10, (width - 1) as nat);
    }
}

/// Whether `pattern` stands in `text` at position `at`.
pub open spec fn occurs_at(text: Seq<char>, pattern: Seq<char>, at: int) -> bool {
    &&& 0 <= at
    &&& at + pattern.len() <= text.len()
    &&& text.subrange(at, at + pattern.len()) == pattern
}

/// Whether `pattern` stands anywhere in `text`.
pub open spec fn contains(text: Seq<char>, pattern: Seq<char>) -> bool {
    exists|at: int| occurs_at(text, pattern, at)
}

/// The first position from `from` on at which `pattern` stands in `text`.
pub open spec fn find_from(text: Seq<char>, pattern: Seq<char>, from: int) -> Option<int>
    decreases text.len() - from,
{
    if from < 0 || from > text.len() {
        None
    } else if occurs_at(text, pattern, from) {
        Some(from)
    } else if from < text.len() {
        find_from(text, pattern, from + 1)
    } else {
        None
    }
}

/// The first position at which `pattern` stands in `text`.
pub open spec fn find(text: Seq<char>, pattern: Seq<char>) -> Option<int> {
    find_from(text, pattern, 0)
}

/// The fields of `text` between the occurrences of `separator`, taken from
/// the left, each occurrence starting where the one before has ended. With
/// an empty separator the text is one field.
pub open spec fn split(text: Seq<char>, separator: Seq<char>) -> Seq<Seq<char>>
    decreases text.len(),
{
    if separator.len() == 0 {
        seq![text]
    } else {
        match find(text, separator) {
            Some(at) if 0 <= at && at + separator.len() <= text.len() => seq![
                text.subrange(0, at),
            ] + split(text.subrange(at + separator.len(), text.len() as int), separator),
            _ => seq![text],
        }
    }
}

/// The fields with `separator` between each two neighbours.
pub open spec fn join(fields: Seq<Seq<char>>, separator: Seq<char>) -> Seq<char>
    decreases fields.len(),
{
    if fields.len() == 0 {
        Seq::<char>::empty()
    } else if fields.len() == 1 {
        fields[0]
    } else {
        fields[0] + separator + join(fields.drop_first(), separator)
    }
}

/// What `find_from` finds is an occurrence with none between `from` and it;
/// where it finds none, there is none from `from` on.
pub proof fn lemma_find_from(text: Seq<char>, pattern: Seq<char>, from: int)
    requires
        0 <= from,
    ensures
        match find_from(text, pattern, from) {
            Some(at) => {
                &&& from <= at
                &&& occurs_at(text, pattern, at)
                &&& forall|j: int| from <= j < at ==> !occurs_at(text, pattern, j)
            },
            None => forall|j: int| from <= j ==> !occurs_at(text, pattern, j),
        },
    decreases text.len() - from,
{
    if from < text.len() && !occurs_at(text, pattern, from) {
        lemma_find_from(text, pattern, from + 1);
    }
}

/// An occurrence with none before it is the one that `find` finds.
pub proof fn lemma_find_first(text: Seq<char>, pattern: Seq<char>, at: int)
    requires
        occurs_at(text, pattern, at),
        forall|j: int| 0 <= j < at ==> !occurs_at(text, pattern, j),
    ensures
        find(text, pattern) == Some(at),
{
    lemma_find_from(text, pattern, 0);
}

/// `find` finds nothing exactly where the pattern does not occur.
pub proof fn lemma_find_none(text: Seq<char>, pattern: Seq<char>)
    ensures
        find(text, pattern) is None <==> !contains(text, pattern),
{
    lemma_find_from(text, pattern, 0);
}

/// A text always splits into at least one field.
pub proof fn lemma_split_nonempty(text: Seq<char>, separator: Seq<char>)
    ensures
        split(text, separator).len() >= 1,
{
}

/// Joining the fields of a text gives the text back.
pub proof fn lemma_join_split(text: Seq<char>, separator: Seq<char>)
    requires
        separator.len() > 0,
    ensures
        join(split(text, separator), separator) == text,
    decreases text.len(),
{
    lemma_find_from(text, separator, 0);
    match find(text, separator) {
        Some(at) => {
            let head = text.subrange(0, at);
            let tail = text.subrange(at + separator.len(), text.len() as int);
            let fields = split(text, separator);
            lemma_join_split(tail, separator);
            lemma_split_nonempty(tail, separator);
            assert(fields == seq![head] + split(tail, separator));
            assert(fields.drop_first() =~= split(tail, separator));
            assert(fields[0] == head);
            assert(head + separator + tail =~= text);
        },
        None => {
            assert(split(text, separator) == seq![text]);
        },
    }
}

} // verus!
