//! The mode number that follows a group program's sub-command name
//! (`1` in `synth wave 1 outfile.wav ...`).

use crate::params::error::{ParamsError, ParamsErrorView};
use vstd::prelude::*;
use vstd::string::*;

verus! {

/// Whether `c` is an ASCII decimal digit.
pub open spec fn is_digit(c: char) -> bool {
    '0' <= c && c <= '9'
}

/// The numeric value of an ASCII digit.
pub open spec fn digit_value(c: char) -> int {
    (c as int) - ('0' as int)
}

/// The number of leading digits of `s` from index `start` on.
pub open spec fn digit_run_len(s: Seq<char>, start: int) -> nat
    decreases s.len() - start,
{
    if start < 0 || start >= s.len() || !is_digit(s[start]) {
        0
    } else {
        1 + digit_run_len(s, start + 1)
    }
}

/// The value of the decimal digits `s[start..end]`.
pub open spec fn digits_value(s: Seq<char>, start: int, end: int) -> int
    decreases end - start,
{
    if end <= start {
        0
    } else {
        digits_value(s, start, end - 1) * 10 + digit_value(s[end - 1])
    }
}

/// Length of the optional leading sign of `s` (0 or 1).
pub open spec fn sign_len(s: Seq<char>) -> int {
    if s.len() > 0 && (s[0] == '+' || s[0] == '-') { 1 } else { 0 }
}

/// The integer that C's `sscanf("%d")` reads from the front of `s`: an
/// optional sign then one or more digits, anything after them ignored.
/// `None` when no digit follows the optional sign, or when the value does not
/// fit in an `i64`.
pub open spec fn leading_int(s: Seq<char>) -> Option<i64> {
    let start = sign_len(s);
    let n = digit_run_len(s, start);
    if n == 0 {
        None
    } else {
        let magnitude = digits_value(s, start, start + n);
        let value = if s[0] == '-' { -magnitude } else { magnitude };
        if i64::MIN <= value <= i64::MAX {
            Some(value as i64)
        } else {
            None
        }
    }
}

/// What [`parse_mode`] returns for the mode word `token` and the highest
/// mode `maxmode`: the leading integer, which must be in `1..=maxmode`.
pub open spec fn mode_result(token: Seq<char>, maxmode: u32) -> Result<u32, ParamsErrorView> {
    match leading_int(token) {
        None => Err(ParamsErrorView::CannotReadModeOfProgram),
        Some(mode) => if mode <= 0 || mode > maxmode {
            Err(ParamsErrorView::ModeOutOfRange { mode: mode as int, maxmode: maxmode as nat })
        } else {
            Ok(mode as u32)
        },
    }
}

/// A longer run of digits is worth at least as much as any prefix of it.
proof fn lemma_digits_value_monotone(s: Seq<char>, start: int, e1: int, e2: int)
    requires
        start <= e1 <= e2 <= s.len(),
        0 <= start,
        forall|k: int| start <= k < e2 ==> is_digit(#[trigger] s[k]),
    ensures
        digits_value(s, start, e1) <= digits_value(s, start, e2),
        digits_value(s, start, e1) >= 0,
    decreases e2,
{
    if e2 > e1 {
        lemma_digits_value_monotone(s, start, e1, e2 - 1);
    } else if e1 > start {
        lemma_digits_value_monotone(s, start, e1 - 1, e1 - 1);
    }
}

/// The digits counted by `digit_run_len` are all digits, and the run stops
/// at a non-digit or at the end.
proof fn lemma_digit_run(s: Seq<char>, start: int)
    requires
        0 <= start <= s.len(),
    ensures
        start + digit_run_len(s, start) <= s.len(),
        forall|k: int| start <= k < start + digit_run_len(s, start) ==> is_digit(#[trigger] s[k]),
        start + digit_run_len(s, start) < s.len() ==> !is_digit(s[start + digit_run_len(s, start)]),
    decreases s.len() - start,
{
    if start < s.len() && is_digit(s[start]) {
        lemma_digit_run(s, start + 1);
    }
}

/// Reads the integer C's `sscanf("%d")` would read from the front of `s`:
/// an optional sign then one or more digits, anything after them ignored.
/// `None` when there is no digit, or when the value does not fit in `i64`.
pub fn scan_leading_int(s: &str) -> (r: Option<i64>)
    ensures
        r == leading_int(s@),
{
    let len = s.unicode_len();
    let mut i: usize = 0;
    let negative = len > 0 && s.get_char(0) == '-';
    if len > 0 && (s.get_char(0) == '+' || s.get_char(0) == '-') {
        i = 1;
    }
    let start = i;
    proof {
        lemma_digit_run(s@, start as int);
    }
    let ghost run = digit_run_len(s@, start as int);
    // magnitude limit: 2^63 for a negative number, 2^63 - 1 otherwise
    let limit: u64 = if negative { 9223372036854775808u64 } else { 9223372036854775807u64 };
    let mut magnitude: u64 = 0;
    let mut overflow = false;
    while i < len && '0' <= s.get_char(i) && s.get_char(i) <= '9'
        invariant
            len == s@.len(),
            start == sign_len(s@),
            run == digit_run_len(s@, start as int),
            start + run <= len,
            forall|k: int| start <= k < start + run ==> is_digit(#[trigger] s@[k]),
            start + run < len ==> !is_digit(s@[start + run]),
            start <= i <= start + run,
            !overflow ==> magnitude == digits_value(s@, start as int, i as int),
            !overflow ==> magnitude <= limit,
            overflow ==> digits_value(s@, start as int, i as int) > limit,
            limit >= 9223372036854775807u64,
            negative == (len > 0 && s@[0] == '-'),
        decreases len - i,
    {
        let c = s.get_char(i);
        let d = (c as u32 - '0' as u32) as u64;
        proof {
            assert(d <= 9);
            assert(d == digit_value(c));
            assert(i < start + run) by {
                if i >= start + run {
                    assert(i == start + run);
                }
            }
            assert(digits_value(s@, start as int, i + 1) == digits_value(s@, start as int, i as int)
                * 10 + digit_value(s@[i as int]));
            lemma_digits_value_monotone(s@, start as int, i as int, i as int);
        }
        if !overflow {
            if magnitude > (limit - d) / 10 {
                overflow = true;
                proof {
                    assert(magnitude * 10 + d > limit) by (nonlinear_arith)
                        requires
                            magnitude > (limit - d) / 10,
                            d <= 9,
                            limit >= 9,
                    ;
                }
            } else {
                proof {
                    assert(magnitude * 10 + d <= limit) by (nonlinear_arith)
                        requires
                            magnitude <= (limit - d) / 10,
                            d <= 9,
                            limit >= 9,
                    ;
                }
                magnitude = magnitude * 10 + d;
            }
        } else {
            proof {
                assert(digits_value(s@, start as int, i as int) * 10 + digit_value(s@[i as int])
                    > limit) by (nonlinear_arith)
                    requires
                        digits_value(s@, start as int, i as int) > limit,
                        digit_value(s@[i as int]) >= 0,
                ;
            }
        }
        i = i + 1;
    }
    proof {
        assert(i == start + run);
    }
    if i == start {
        return None;
    }
    if overflow {
        return None;
    }
    if negative {
        if magnitude == 9223372036854775808u64 {
            Some(i64::MIN)
        } else {
            Some(-(magnitude as i64))
        }
    } else {
        Some(magnitude as i64)
    }
}

/// Parses `token` as a mode number and checks it against `maxmode`
/// (1-based, inclusive). Like `sscanf("%d")`, it reads only the leading
/// integer and ignores whatever follows it: `"3.5"` and `"3abc"` both read
/// as mode 3.
pub fn parse_mode(token: &str, maxmode: u32) -> (r: Result<u32, ParamsError>)
    ensures
        match (r, mode_result(token@, maxmode)) {
            (Ok(m), Ok(n)) => m == n,
            (Err(e), Err(v)) => e@ == v,
            _ => false,
        },
{
    let mode = match scan_leading_int(token) {
        Some(m) => m,
        None => return Err(ParamsError::CannotReadModeOfProgram),
    };
    if mode <= 0 || mode as i128 > maxmode as i128 {
        return Err(ParamsError::ModeOutOfRange { mode, maxmode });
    }
    Ok(mode as u32)
}

} // verus!
