//! `housekeep remove filename [-a]`: deletes the numbered copies
//! `X_001`, `X_002`, ... of a file `X`.
//!
//! The scan is a small state machine ([`RemoveScan`]): it names the next
//! candidate number, the caller looks for that file and deletes it, and
//! reports back what happened. Without `-a` the scan stops once ten
//! candidates in all (not ten in a row) were missing; with `-a` it runs
//! through all 999 numbers.

use crate::text::{decimal, last_index_of, last_index_of_exec, push_decimal, push_str};
use vstd::prelude::*;
use vstd::string::*;

verus! {

/// The greeting printed ahead of a bare `housekeep remove`.
pub const GREETING: &'static str = "CDP Release 7.1 2016\n";

/// The usage text of `housekeep remove`.
pub const USAGE: &'static str = "CDP Release 7.1 2016
REMOVE EXISTING COPIES OF A FILE 

USAGE: housekeep remove filename [-a]

         Deletes any copies of filename X, having names X_001,X_002...
         No checks are made that these ARE COPIES of file X!!
     -a  Program checks all names in numbered sequence.
         In standard case, once a numbered file is missing,
         program checks for 10 more named files before halting.
         Setting -a flag forces program to search for all possible
         duplicate filenames. This may take some time.
";

/// The highest copy number looked for.
pub const MAX_DUPLICATES: u32 = 999;

/// The number of missing copies after which the standard scan stops.
pub const MISSES_BEFORE_STOPPING: u32 = 10;

/// The suffix of copy `number`: `_` and the number, zero-padded to three
/// digits when it has fewer.
pub open spec fn copy_suffix(number: u32) -> Seq<char> {
    "_"@ + (if 1 <= number <= 9 {
        "00"@
    } else if 10 <= number <= 99 {
        "0"@
    } else {
        ""@
    }) + decimal(number as nat)
}

/// The name of copy `number` of `source`: the suffix inserted before the
/// extension, or appended where the name has none. A dot followed by a
/// directory separator starts no extension.
pub open spec fn copy_name(source: Seq<char>, number: u32) -> Seq<char> {
    match last_index_of(source, '.') {
        Some(dot) if !source.skip(dot + 1).contains('/') && !source.skip(dot + 1).contains('\\') => source.take(
            dot,
        ) + copy_suffix(number) + source.skip(dot),
        _ => source + copy_suffix(number),
    }
}

/// Whether `c` occurs in `s` at or after index `from`.
fn contains_from(s: &str, from: usize, c: char) -> (r: bool)
    requires
        from <= s@.len(),
    ensures
        r == s@.skip(from as int).contains(c),
{
    let n = s.unicode_len();
    let mut i = from;
    while i < n
        invariant
            n == s@.len(),
            from <= i <= n,
            forall|j: int| from <= j < i ==> s@[j] != c,
        decreases n - i,
    {
        if s.get_char(i) == c {
            assert(s@.skip(from as int)[i - from] == c);
            return true;
        }
        i = i + 1;
    }
    proof {
        if s@.skip(from as int).contains(c) {
            let j = choose|j: int| 0 <= j < s@.skip(from as int).len() && s@.skip(from as int)[j] == c;
            assert(s@[from + j] == c);
        }
    }
    false
}

/// Appends the suffix of copy `number`.
fn push_copy_suffix(s: &mut String, number: u32)
    ensures
        final(s)@ == old(s)@ + copy_suffix(number),
{
    if 1 <= number && number <= 9 {
        push_str(s, "_00");
        proof {
            reveal_strlit("_00");
            reveal_strlit("_");
            reveal_strlit("00");
            assert("_00"@ =~= "_"@ + "00"@);
        }
    } else if 10 <= number && number <= 99 {
        push_str(s, "_0");
        proof {
            reveal_strlit("_0");
            reveal_strlit("_");
            reveal_strlit("0");
            assert("_0"@ =~= "_"@ + "0"@);
        }
    } else {
        push_str(s, "_");
        proof {
            reveal_strlit("");
            assert("_"@ =~= "_"@ + ""@);
        }
    }
    push_decimal(s, number as u64);
    proof {
        let pad = if 1 <= number <= 9 {
            "00"@
        } else if 10 <= number <= 99 {
            "0"@
        } else {
            ""@
        };
        assert(old(s)@ + ("_"@ + pad) + decimal(number as nat) =~= old(s)@ + ("_"@ + pad + decimal(
            number as nat,
        )));
    }
}

/// The name of copy `number` of `source` (`file.wav`, 1: `file_001.wav`).
pub fn numbered_filename(source: &str, number: u32) -> (r: String)
    ensures
        r@ == copy_name(source@, number),
{
    let n = source.unicode_len();
    match last_index_of_exec(source, '.') {
        Some(dot) => {
            if !contains_from(source, dot + 1, '/') && !contains_from(source, dot + 1, '\\') {
                let mut r = String::from_str(source.substring_char(0, dot));
                push_copy_suffix(&mut r, number);
                push_str(&mut r, source.substring_char(dot, n));
                proof {
                    assert(source@.subrange(0, dot as int) =~= source@.take(dot as int));
                    assert(source@.subrange(dot as int, n as int) =~= source@.skip(dot as int));
                }
                r
            } else {
                let mut r = String::from_str(source);
                push_copy_suffix(&mut r, number);
                r
            }
        },
        None => {
            let mut r = String::from_str(source);
            push_copy_suffix(&mut r, number);
            r
        },
    }
}

/// What became of one candidate copy.
#[derive(Debug, Clone, Copy, PartialEq, Eq, Structural)]
pub enum Outcome {
    /// No file of that name exists.
    Missing,
    /// The file existed and was deleted.
    Removed,
    /// The file existed but could not be deleted (a warning is printed).
    Failed,
}

/// The state of a removal scan.
#[derive(Debug, Clone, Copy)]
pub struct RemoveScan {
    next: u32,
    misses: u32,
    removed: u32,
    all_copies: bool,
}

impl RemoveScan {
    /// The number of the next candidate.
    pub closed spec fn next_number(self) -> nat {
        self.next as nat
    }

    /// The number of candidates found missing so far.
    pub closed spec fn misses_so_far(self) -> nat {
        self.misses as nat
    }

    /// The number of copies deleted so far.
    pub closed spec fn removed_so_far(self) -> nat {
        self.removed as nat
    }

    /// Whether every number up to the last is looked for (`-a`).
    pub closed spec fn scans_all(self) -> bool {
        self.all_copies
    }

    /// Whether the scan has a next candidate: numbers run up to 999, and
    /// the standard scan stops at its tenth missing copy.
    pub open spec fn has_next(self) -> bool {
        self.next_number() <= MAX_DUPLICATES && (self.scans_all() || self.misses_so_far()
            < MISSES_BEFORE_STOPPING)
    }

    /// What the state keeps true: the counts never exceed the number of
    /// candidates seen.
    pub open spec fn inv(self) -> bool {
        &&& 1 <= self.next_number() <= MAX_DUPLICATES + 1
        &&& self.misses_so_far() + self.removed_so_far() <= self.next_number() - 1
    }

    /// A fresh scan, starting at copy 1.
    pub fn new(all_copies: bool) -> (s: RemoveScan)
        ensures
            s.inv(),
            s.next_number() == 1,
            s.misses_so_far() == 0,
            s.removed_so_far() == 0,
            s.scans_all() == all_copies,
    {
        RemoveScan { next: 1, misses: 0, removed: 0, all_copies }
    }

    /// The number of the next copy to look for, or `None` once the scan is
    /// over.
    pub fn candidate(&self) -> (r: Option<u32>)
        requires
            self.inv(),
        ensures
            self.has_next() ==> r == Some(self.next_number() as u32),
            !self.has_next() ==> r is None,
    {
        if self.next > MAX_DUPLICATES || (!self.all_copies && self.misses >= MISSES_BEFORE_STOPPING) {
            None
        } else {
            Some(self.next)
        }
    }

    /// Records what became of the current candidate and moves to the next
    /// number.
    pub fn record(&mut self, outcome: Outcome)
        requires
            old(self).inv(),
            old(self).has_next(),
        ensures
            final(self).inv(),
            final(self).next_number() == old(self).next_number() + 1,
            final(self).scans_all() == old(self).scans_all(),
            final(self).misses_so_far() == old(self).misses_so_far() + (if outcome == Outcome::Missing {
                1nat
            } else {
                0nat
            }),
            final(self).removed_so_far() == old(self).removed_so_far() + (if outcome
                == Outcome::Removed {
                1nat
            } else {
                0nat
            }),
    {
        match outcome {
            Outcome::Missing => {
                self.misses = self.misses + 1;
            },
            Outcome::Removed => {
                self.removed = self.removed + 1;
            },
            Outcome::Failed => {},
        }
        self.next = self.next + 1;
    }

    /// The number of copies deleted.
    pub fn removed(&self) -> (n: u32)
        ensures
            n == self.removed_so_far(),
    {
        self.removed
    }
}

/// A scan with `-a` looks at every number from 1 to 999; a standard scan
/// stops as soon as ten candidates in all were missing, however many copies
/// it found in between.
pub proof fn lemma_scan_stopping_rule(s: RemoveScan)
    requires
        s.inv(),
    ensures
        s.scans_all() ==> (s.has_next() <==> s.next_number() <= MAX_DUPLICATES),
        !s.scans_all() && s.misses_so_far() >= MISSES_BEFORE_STOPPING ==> !s.has_next(),
        s.next_number() > MAX_DUPLICATES ==> !s.has_next(),
{
}

} // verus!
