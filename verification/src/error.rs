//! The exit-status categories and the shape in which a finished run
//! reports its outcome on standard output.

use vstd::prelude::*;
use crate::text::{push_char, push_str};
use vstd::string::*;

verus! {

/// One of the negative exit-status categories. It decides what is
/// printed ahead of an error message, never the process exit code.
#[derive(Debug, Clone, Copy, PartialEq, Eq, Structural)]
pub enum ExitCategory {
    ProgramError,
    SystemError,
    MemoryError,
    UserError,
    DataError,
    GoalFailed,
    /// Prints the message as-is, with no header line.
    UsageOnly,
}

/// The header text printed (after `"ERROR: "`) ahead of a message of the
/// given category, or `None` for [`ExitCategory::UsageOnly`].
pub open spec fn header_text(category: ExitCategory) -> Option<Seq<char>> {
    match category {
        ExitCategory::ProgramError => Some("INTERNAL ERROR: (Bug?)"@),
        ExitCategory::SystemError => Some("SYSTEM ERROR"@),
        ExitCategory::MemoryError => Some("MEMORY ERROR"@),
        ExitCategory::UserError => Some("INCORRECT USE"@),
        ExitCategory::DataError => Some("INVALID DATA"@),
        ExitCategory::GoalFailed => Some("CANNOT ACHIEVE TASK:"@),
        ExitCategory::UsageOnly => None,
    }
}

impl ExitCategory {
    /// The header line printed ahead of the message, or `None` for
    /// [`ExitCategory::UsageOnly`], which has no header at all.
    pub fn header(self) -> (h: Option<&'static str>)
        ensures
            h is Some <==> header_text(self) is Some,
            h is Some ==> h.unwrap()@ == header_text(self).unwrap(),
    {
        match self {
            ExitCategory::ProgramError => Some("INTERNAL ERROR: (Bug?)"),
            ExitCategory::SystemError => Some("SYSTEM ERROR"),
            ExitCategory::MemoryError => Some("MEMORY ERROR"),
            ExitCategory::UserError => Some("INCORRECT USE"),
            ExitCategory::DataError => Some("INVALID DATA"),
            ExitCategory::GoalFailed => Some("CANNOT ACHIEVE TASK:"),
            ExitCategory::UsageOnly => None,
        }
    }
}

/// A command failure: the message, and the category that decides how it is
/// printed.
#[derive(Debug)]
pub struct CdpError {
    pub category: ExitCategory,
    pub message: String,
}

impl CdpError {
    /// A failure of the given category carrying `message`.
    pub fn new(category: ExitCategory, message: &str) -> (e: CdpError)
        ensures
            e.category == category,
            e.message@ == message@,
    {
        CdpError { category, message: String::from_str(message) }
    }
}

/// The lines of `s` as `str::lines` gives them: split at each `\n`, a
/// `\r` right before a `\n` removed, and no empty line after a final
/// `\n`.
pub open spec fn text_lines(s: Seq<char>) -> Seq<Seq<char>>
    decreases s.len(),
{
    if s.len() == 0 {
        seq![]
    } else {
        match first_newline(s, 0) {
            None => seq![s],
            Some(k) => {
                proof {
                    lemma_first_newline_bounds(s, 0);
                }
                seq![without_cr(s.take(k))] + text_lines(s.skip(k + 1))
            },
        }
    }
}

/// The index of the first `\n` of `s` at or after `from`.
pub open spec fn first_newline(s: Seq<char>, from: int) -> Option<int>
    decreases s.len() - from,
{
    if from < 0 || from >= s.len() {
        None
    } else if s[from] == '\n' {
        Some(from)
    } else {
        first_newline(s, from + 1)
    }
}

/// A newline found from `from` lies at or after it and inside `s`.
pub proof fn lemma_first_newline_bounds(s: Seq<char>, from: int)
    ensures
        first_newline(s, from) matches Some(k) ==> from <= k < s.len() && s[k] == '\n',
    decreases s.len() - from,
{
    if 0 <= from < s.len() && s[from] != '\n' {
        lemma_first_newline_bounds(s, from + 1);
    }
}

/// `line` without one trailing `\r`.
pub open spec fn without_cr(line: Seq<char>) -> Seq<char> {
    if line.len() > 0 && line.last() == '\r' {
        line.drop_last()
    } else {
        line
    }
}

/// Each line with `prefix` before it and a newline after it.
pub open spec fn prefixed(lines: Seq<Seq<char>>, prefix: Seq<char>) -> Seq<char>
    decreases lines.len(),
{
    if lines.len() == 0 {
        seq![]
    } else {
        prefixed(lines.drop_last(), prefix) + prefix + lines.last() + "\n"@
    }
}

/// What a finished run prints: nothing for success; for a failure with a
/// header, the header line and every line of the message after
/// `"ERROR: "`; for a usage-only failure the message's lines as they are;
/// and in every case a closing blank line pair.
pub open spec fn report(outcome: Option<(ExitCategory, Seq<char>)>) -> Seq<char> {
    match outcome {
        None => "\n\n"@,
        Some((category, message)) => match header_text(category) {
            Some(h) => "ERROR: "@ + h + "\n"@ + prefixed(text_lines(message), "ERROR: "@) + "\n\n"@,
            None => prefixed(text_lines(message), ""@) + "\n\n"@,
        },
    }
}

/// The outcome of a run taken by its category and message.
pub open spec fn outcome_view(result: Result<(), CdpError>) -> Option<(ExitCategory, Seq<char>)> {
    match result {
        Ok(()) => None,
        Err(e) => Some((e.category, e.message@)),
    }
}

/// The index of the first newline of `s` at or after `from`.
fn first_newline_exec(s: &str, from: usize) -> (r: Option<usize>)
    requires
        from <= s@.len(),
    ensures
        match first_newline(s@, from as int) {
            Some(k) => r matches Some(j) && j == k,
            None => r is None,
        },
        r matches Some(j) ==> from <= j < s@.len(),
{
    proof {
        lemma_first_newline_bounds(s@, from as int);
    }
    let n = s.unicode_len();
    let mut i = from;
    while i < n
        invariant
            n == s@.len(),
            from <= i <= n,
            first_newline(s@, from as int) == first_newline(s@, i as int),
        decreases n - i,
    {
        if s.get_char(i) == '\n' {
            return Some(i);
        }
        i = i + 1;
    }
    None
}

/// Appends each line of `message` with `prefix` before it and a newline
/// after it.
fn push_prefixed_lines(out: &mut String, message: &str, prefix: &str)
    ensures
        final(out)@ == old(out)@ + prefixed(text_lines(message@), prefix@),
{
    let n = message.unicode_len();
    let ghost all = text_lines(message@);
    let mut start: usize = 0;
    let ghost mut done: Seq<Seq<char>> = seq![];
    assert(message@.skip(0) =~= message@);
    assert(done + text_lines(message@.skip(0)) =~= all);
    while start < n
        invariant
            n == message@.len(),
            start <= n,
            all == text_lines(message@),
            done + text_lines(message@.skip(start as int)) == all,
            out@ == old(out)@ + prefixed(done, prefix@),
        decreases n - start,
    {
        let ghost rest = message@.skip(start as int);
        let ghost before = out@;
        match first_newline_exec(message, start) {
            None => {
                proof {
                    lemma_first_newline_shift(message@, start as int);
                }
                push_str(out, prefix);
                push_str(out, message.substring_char(start, n));
                push_str(out, "\n");
                proof {
                    assert(message@.subrange(start as int, n as int) =~= rest);
                    assert(text_lines(rest) == seq![rest]);
                    let d2 = done.push(rest);
                    assert(d2.drop_last() =~= done);
                    assert(done + seq![rest] =~= d2);
                    assert(text_lines(message@.skip(n as int)) =~= seq![]);
                    assert(d2 + text_lines(message@.skip(n as int)) =~= d2);
                    done = d2;
                }
                start = n;
            },
            Some(k) => {
                proof {
                    lemma_first_newline_shift(message@, start as int);
                }
                let line_end = if k > start && message.get_char(k - 1) == '\r' {
                    k - 1
                } else {
                    k
                };
                push_str(out, prefix);
                push_str(out, message.substring_char(start, line_end));
                push_str(out, "\n");
                proof {
                    let line = without_cr(rest.take(k - start));
                    assert(message@.subrange(start as int, line_end as int) =~= line);
                    assert(text_lines(rest) == seq![line] + text_lines(rest.skip(k - start + 1)));
                    assert(rest.skip(k - start + 1) =~= message@.skip(k + 1));
                    let d2 = done.push(line);
                    assert(d2.drop_last() =~= done);
                    assert(done + (seq![line] + text_lines(message@.skip(k + 1))) =~= d2 + text_lines(message@.skip(k + 1)));
                    done = d2;
                }
                start = k + 1;
            },
        }
    }
    proof {
        assert(text_lines(message@.skip(start as int)) =~= seq![]);
        assert(done + seq![] =~= done);
    }
}

/// The first newline of a tail is the first newline from that point.
proof fn lemma_first_newline_shift(s: Seq<char>, start: int)
    requires
        0 <= start < s.len(),
    ensures
        match first_newline(s, start) {
            Some(k) => first_newline(s.skip(start), 0) == Some(k - start),
            None => first_newline(s.skip(start), 0) is None,
        },
    decreases s.len() - start,
{
    lemma_first_newline_from(s, start, start);
}

/// Searching a tail from `i - start` finds what searching the whole from
/// `i` finds, shifted.
proof fn lemma_first_newline_from(s: Seq<char>, start: int, i: int)
    requires
        0 <= start <= i <= s.len(),
    ensures
        match first_newline(s, i) {
            Some(k) => first_newline(s.skip(start), i - start) == Some(k - start),
            None => first_newline(s.skip(start), i - start) is None,
        },
    decreases s.len() - i,
{
    if i < s.len() {
        lemma_first_newline_from(s, start, i + 1);
    }
}

/// The text a finished run prints on standard output.
pub fn report_text(result: &Result<(), CdpError>) -> (r: String)
    ensures
        r@ == report(outcome_view(*result)),
{
    let mut out = String::new();
    match result {
        Ok(()) => {
            push_str(&mut out, "\n\n");
        },
        Err(e) => {
            match e.category.header() {
                Some(h) => {
                    push_str(&mut out, "ERROR: ");
                    push_str(&mut out, h);
                    push_str(&mut out, "\n");
                    push_prefixed_lines(&mut out, e.message.as_str(), "ERROR: ");
                },
                None => {
                    push_prefixed_lines(&mut out, e.message.as_str(), "");
                },
            }
            push_str(&mut out, "\n\n");
        },
    }
    out
}

} // verus!
