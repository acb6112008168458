//! The grammar of mix files: one line per sound-file event,
//!
//! ```text
//! sndname starttime_in_mix  chans  level
//! sndname starttime_in_mix  1      level       pan
//! sndname starttime_in_mix  2      left_level  left_pan  right_level  right_pan
//! ```
//!
//! A line is split at white space into words. Blank lines and lines whose
//! first word starts with `;` are skipped, and are not counted in the line
//! numbers that errors give. This module decides which lines are read and
//! how they are numbered, the words of a line, which fields a line of so
//! many words has and in what order they are read, the forms of the level
//! and pan words, and what the channel count makes of a line. Reading the
//! numbers themselves is floating-point work, done by the caller.

use crate::data::{is_c_space, is_c_space_exec, lemma_scan_bounds, skip_spaces, word_end};
use vstd::prelude::*;
use vstd::string::*;

verus! {

/// The spans of the words of `s` from index `i` on.
pub open spec fn word_spans(s: Seq<char>, i: int) -> Seq<(int, int)>
    decreases s.len() - i,
{
    let a = skip_spaces(s, i);
    if i < 0 || i >= s.len() || a >= s.len() {
        seq![]
    } else {
        let b = word_end(s, a);
        if b > a {
            proof {
                lemma_scan_bounds(s, i);
                lemma_scan_bounds(s, a);
            }
            seq![(a, b)] + word_spans(s, b)
        } else {
            seq![]
        }
    }
}

/// The words of `s`: its maximal runs of characters that are not white
/// space, in order.
pub open spec fn words(s: Seq<char>) -> Seq<Seq<char>> {
    word_spans(s, 0).map_values(|sp: (int, int)| s.subrange(sp.0, sp.1))
}

/// The words of `line` (`" a.wav  0.0\t1 "`: `a.wav`, `0.0`, `1`).
pub fn split_words(line: &str) -> (r: Vec<String>)
    ensures
        r@.map_values(|w: String| w@) == words(line@),
{
    let n = line.unicode_len();
    let ghost s = line@;
    let mut r: Vec<String> = Vec::new();
    let mut i: usize = 0;
    let ghost mut done: Seq<(int, int)> = seq![];
    loop
        invariant
            n == s.len(),
            s == line@,
            i <= n,
            done + word_spans(s, i as int) == word_spans(s, 0),
            r@.map_values(|w: String| w@) == done.map_values(|sp: (int, int)| s.subrange(sp.0, sp.1)),
        decreases n - i,
    {
        proof {
            lemma_scan_bounds(s, i as int);
        }
        let mut a = i;
        while a < n && is_c_space_exec(line.get_char(a))
            invariant
                n == s.len(),
                s == line@,
                i <= a <= n,
                skip_spaces(s, i as int) == skip_spaces(s, a as int),
            decreases n - a,
        {
            a = a + 1;
        }
        if a >= n {
            assert(word_spans(s, i as int) =~= seq![]);
            assert(done + seq![] =~= done);
            return r;
        }
        proof {
            lemma_scan_bounds(s, a as int);
        }
        let mut b = a;
        while b < n && !is_c_space_exec(line.get_char(b))
            invariant
                n == s.len(),
                s == line@,
                a <= b <= n,
                word_end(s, a as int) == word_end(s, b as int),
            decreases n - b,
        {
            b = b + 1;
        }
        if b > a {
            let w = String::from_str(line.substring_char(a, b));
            let ghost before = r@;
            r.push(w);
            proof {
                assert(word_spans(s, i as int) == seq![(a as int, b as int)] + word_spans(s, b as int));
                assert(done.push((a as int, b as int)) + word_spans(s, b as int) =~= done + (seq![(
                    a as int,
                    b as int,
                )] + word_spans(s, b as int)));
                assert(r@.map_values(|w: String| w@) =~= before.map_values(|w: String| w@).push(
                    s.subrange(a as int, b as int),
                ));
                assert(done.push((a as int, b as int)).map_values(|sp: (int, int)| s.subrange(sp.0, sp.1))
                    =~= done.map_values(|sp: (int, int)| s.subrange(sp.0, sp.1)).push(
                    s.subrange(a as int, b as int),
                ));
                done = done.push((a as int, b as int));
            }
            i = b;
        } else {
            assert(word_spans(s, i as int) =~= seq![]);
            assert(done + seq![] =~= done);
            return r;
        }
    }
}

/// Whether a line is skipped: it holds only white space, or its first
/// character after white space is `;`.
pub open spec fn is_skipped_line(l: Seq<char>) -> bool {
    let a = skip_spaces(l, 0);
    a >= l.len() || l[a] == ';'
}

/// Whether `line` is a comment or blank line.
pub fn is_comment_or_blank_line(line: &str) -> (r: bool)
    ensures
        r == is_skipped_line(line@),
{
    let n = line.unicode_len();
    proof {
        lemma_scan_bounds(line@, 0);
    }
    let mut a: usize = 0;
    while a < n && is_c_space_exec(line.get_char(a))
        invariant
            n == line@.len(),
            a <= n,
            skip_spaces(line@, 0) == skip_spaces(line@, a as int),
        decreases n - a,
    {
        a = a + 1;
    }
    a >= n || line.get_char(a) == ';'
}

/// The indices of the lines among the first `n` that are read.
pub open spec fn read_lines(ls: Seq<Seq<char>>, n: int) -> Seq<int>
    decreases n,
{
    if n <= 0 {
        seq![]
    } else if is_skipped_line(ls[n - 1]) {
        read_lines(ls, n - 1)
    } else {
        read_lines(ls, n - 1).push(n - 1)
    }
}

/// The lines of a mix file that are read, each with its line number: the
/// `k`th of them (from 0) is the line at index `r[k].0` and has number
/// `k + 1`. Skipped lines take no number; a file with no line to read has
/// no mix data.
pub fn numbered_lines(lines: &Vec<String>) -> (r: Vec<(usize, usize)>)
    ensures
        r@.len() == read_lines(lines@.map_values(|l: String| l@), lines@.len() as int).len(),
        forall|k: int|
            0 <= k < r@.len() ==> r@[k].0 as int == read_lines(
                lines@.map_values(|l: String| l@),
                lines@.len() as int,
            )[k] && r@[k].1 == k + 1,
{
    let ghost ls = lines@.map_values(|l: String| l@);
    let mut r: Vec<(usize, usize)> = Vec::new();
    let mut i: usize = 0;
    while i < lines.len()
        invariant
            i <= lines@.len(),
            ls == lines@.map_values(|l: String| l@),
            r@.len() == read_lines(ls, i as int).len(),
            r@.len() <= i,
            forall|k: int| 0 <= k < r@.len() ==> r@[k].0 as int == read_lines(ls, i as int)[k] && r@[k].1 == k + 1,
        decreases lines@.len() - i,
    {
        assert(ls[i as int] == lines@[i as int]@);
        let ghost before = r@;
        let ghost prev = read_lines(ls, i as int);
        if !is_comment_or_blank_line(lines[i].as_str()) {
            let number = r.len() + 1;
            r.push((i, number));
            assert(read_lines(ls, i + 1) == prev.push(i as int));
            assert forall|k: int| 0 <= k < r@.len() implies r@[k].0 as int == read_lines(ls, i + 1)[k]
                && r@[k].1 == k + 1 by {
                if k < before.len() {
                    assert(r@[k] == before[k]);
                    assert(prev.push(i as int)[k] == prev[k]);
                } else {
                    assert(k == before.len());
                    assert(prev.push(i as int)[k] == i);
                }
            }
        } else {
            assert(read_lines(ls, i + 1) == prev);
        }
        i = i + 1;
    }
    r
}

/// A field of a mix line.
#[derive(Debug, Clone, Copy, PartialEq, Eq, Structural)]
pub enum MixField {
    Time,
    Chans,
    LeftLevel,
    LeftPan,
    RightLevel,
    RightPan,
}

/// The column of a field in a line: the name is column 0, then time,
/// channel count, level, pan, right level, right pan.
pub open spec fn field_column(f: MixField) -> int {
    match f {
        MixField::Time => 1,
        MixField::Chans => 2,
        MixField::LeftLevel => 3,
        MixField::LeftPan => 4,
        MixField::RightLevel => 5,
        MixField::RightPan => 6,
    }
}

/// The fields of a line of `n` words, in the order they are read, each
/// with the index of its word: a stereo line (7 words) reads its right
/// level, right pan and left pan first, a mono line (5 words) its pan
/// first, then every line its time, channel count and level. `None` for
/// any other number of words, an illegal line length.
pub open spec fn field_order(n: int) -> Option<Seq<(MixField, usize)>> {
    if n == 7 {
        Some(seq![
            (MixField::RightLevel, 5usize),
            (MixField::RightPan, 6usize),
            (MixField::LeftPan, 4usize),
            (MixField::Time, 1usize),
            (MixField::Chans, 2usize),
            (MixField::LeftLevel, 3usize),
        ])
    } else if n == 5 {
        Some(seq![
            (MixField::LeftPan, 4usize),
            (MixField::Time, 1usize),
            (MixField::Chans, 2usize),
            (MixField::LeftLevel, 3usize),
        ])
    } else if n == 4 {
        Some(seq![(MixField::Time, 1usize), (MixField::Chans, 2usize), (MixField::LeftLevel, 3usize)])
    } else {
        None
    }
}

/// The fields of a line of `n` words in reading order, or `None` for an
/// illegal line length.
pub fn mix_field_order(n: usize) -> (r: Option<Vec<(MixField, usize)>>)
    ensures
        match field_order(n as int) {
            Some(order) => r matches Some(v) && v@ == order,
            None => r is None,
        },
        r is Some <==> (n == 4 || n == 5 || n == 7),
        r matches Some(v) ==> v@.len() == n - 1 && forall|k: int|
            0 <= k < v@.len() ==> v@[k].1 as int == field_column(v@[k].0),
        r matches Some(v) ==> forall|j: int, k: int|
            0 <= j < k < v@.len() ==> v@[j].1 != v@[k].1,
{
    if n == 7 {
        let v = vec![
            (MixField::RightLevel, 5usize),
            (MixField::RightPan, 6usize),
            (MixField::LeftPan, 4usize),
            (MixField::Time, 1usize),
            (MixField::Chans, 2usize),
            (MixField::LeftLevel, 3usize),
        ];
        assert(v@ =~= field_order(7).unwrap());
        Some(v)
    } else if n == 5 {
        let v = vec![
            (MixField::LeftPan, 4usize),
            (MixField::Time, 1usize),
            (MixField::Chans, 2usize),
            (MixField::LeftLevel, 3usize),
        ];
        assert(v@ =~= field_order(5).unwrap());
        Some(v)
    } else if n == 4 {
        let v = vec![(MixField::Time, 1usize), (MixField::Chans, 2usize), (MixField::LeftLevel, 3usize)];
        assert(v@ =~= field_order(4).unwrap());
        Some(v)
    } else {
        None
    }
}

/// What the channel count makes of a line whose fields were read.
#[derive(Debug, Clone, Copy, PartialEq, Eq, Structural)]
pub enum MixShape {
    /// A mono 4-word line: centre pan, no right channel.
    MonoCentre,
    /// A stereo 4-word line: the right level equals the left, panned hard
    /// left and hard right.
    StereoFromLevel,
    /// A 5- or 7-word line: the fields as read.
    AsRead,
}

/// A line that the channel count makes illegal.
#[derive(Debug, Clone, Copy, PartialEq, Eq, Structural)]
pub enum MixLineError {
    /// A 4-word line whose channel count is neither 1 nor 2.
    ChansNotMonoOrStereo(i32),
    /// A 5-word line not of 1 channel, or a 7-word line not of 2.
    ChansLineLengthMismatch,
}

/// What a line of `n` words with channel count `chans` is.
pub open spec fn line_shape(n: int, chans: i32) -> Result<MixShape, MixLineError> {
    if n == 4 {
        if chans == 1 {
            Ok(MixShape::MonoCentre)
        } else if chans == 2 {
            Ok(MixShape::StereoFromLevel)
        } else {
            Err(MixLineError::ChansNotMonoOrStereo(chans))
        }
    } else if n == 5 && chans != 1 {
        Err(MixLineError::ChansLineLengthMismatch)
    } else if n == 7 && chans != 2 {
        Err(MixLineError::ChansLineLengthMismatch)
    } else {
        Ok(MixShape::AsRead)
    }
}

/// What a line of `n` words with channel count `chans` is (`4` words and
/// `2` channels: the level on both sides, panned hard left and right).
pub fn finish_mix_line(n: usize, chans: i32) -> (r: Result<MixShape, MixLineError>)
    ensures
        r == line_shape(n as int, chans),
        n == 5 ==> (r is Ok <==> chans == 1),
        n == 7 ==> (r is Ok <==> chans == 2),
        n == 4 && chans == 1 ==> r == Ok::<MixShape, MixLineError>(MixShape::MonoCentre),
        n == 4 && chans == 2 ==> r == Ok::<MixShape, MixLineError>(MixShape::StereoFromLevel),
        n == 4 && chans != 1 && chans != 2 ==> r == Err::<MixShape, MixLineError>(
            MixLineError::ChansNotMonoOrStereo(chans),
        ),
        r matches Ok(shape) ==> (shape == MixShape::AsRead <==> n != 4),
{
    if n == 4 {
        if chans == 1 {
            Ok(MixShape::MonoCentre)
        } else if chans == 2 {
            Ok(MixShape::StereoFromLevel)
        } else {
            Err(MixLineError::ChansNotMonoOrStereo(chans))
        }
    } else if n == 5 && chans != 1 {
        Err(MixLineError::ChansLineLengthMismatch)
    } else if n == 7 && chans != 2 {
        Err(MixLineError::ChansLineLengthMismatch)
    } else {
        Ok(MixShape::AsRead)
    }
}

/// Whether a level word is given in decibels: it ends in `dB`, `DB` or
/// `db`.
pub open spec fn is_db_word(w: Seq<char>) -> bool {
    &&& w.len() >= 2
    &&& ((w[w.len() - 2] == 'd' && w[w.len() - 1] == 'B') || (w[w.len() - 2] == 'D' && w[w.len()
        - 1] == 'B') || (w[w.len() - 2] == 'd' && w[w.len() - 1] == 'b'))
}

/// Whether the level word `word` is given in decibels (`-6dB`: yes).
pub fn is_db_suffixed(word: &str) -> (r: bool)
    ensures
        r == is_db_word(word@),
        word@.len() >= 2 && word@[word@.len() - 2] == 'd' && word@[word@.len() - 1] == 'B' ==> r,
        word@.len() >= 2 && word@[word@.len() - 2] == 'D' && word@[word@.len() - 1] == 'B' ==> r,
        word@.len() >= 2 && word@[word@.len() - 2] == 'd' && word@[word@.len() - 1] == 'b' ==> r,
        word@.len() < 2 || (word@[word@.len() - 1] != 'B' && word@[word@.len() - 1] != 'b') ==> !r,
{
    let n = word.unicode_len();
    if n < 2 {
        return false;
    }
    let a = word.get_char(n - 2);
    let b = word.get_char(n - 1);
    (a == 'd' && b == 'B') || (a == 'D' && b == 'B') || (a == 'd' && b == 'b')
}

/// A pan given by a letter.
#[derive(Debug, Clone, Copy, PartialEq, Eq, Structural)]
pub enum PanLetter {
    Left,
    Right,
    Centre,
}

/// The pan letter a pan word starts with, if any: `L`, `R` or `C`.
pub open spec fn pan_letter_of(w: Seq<char>) -> Option<PanLetter> {
    if w.len() == 0 {
        None
    } else if w[0] == 'L' {
        Some(PanLetter::Left)
    } else if w[0] == 'R' {
        Some(PanLetter::Right)
    } else if w[0] == 'C' {
        Some(PanLetter::Centre)
    } else {
        None
    }
}

/// The pan shorthand: a pan word starting with `L` pans hard left, one
/// starting with `R` hard right, one starting with `C` to the centre, and
/// a word starting with anything else gives its pan as a number.
pub proof fn lemma_pan_shorthand(w: Seq<char>)
    ensures
        w.len() > 0 && w[0] == 'L' ==> pan_letter_of(w) == Some(PanLetter::Left),
        w.len() > 0 && w[0] == 'R' ==> pan_letter_of(w) == Some(PanLetter::Right),
        w.len() > 0 && w[0] == 'C' ==> pan_letter_of(w) == Some(PanLetter::Centre),
        w.len() == 0 || (w[0] != 'L' && w[0] != 'R' && w[0] != 'C') ==> pan_letter_of(w) is None,
{
}

/// The pan letter `word` starts with (`C`: the centre), or `None` for a
/// pan given as a number.
pub fn pan_letter(word: &str) -> (r: Option<PanLetter>)
    ensures
        r == pan_letter_of(word@),
        word@.len() > 0 && word@[0] == 'L' ==> r == Some(PanLetter::Left),
        word@.len() > 0 && word@[0] == 'R' ==> r == Some(PanLetter::Right),
        word@.len() > 0 && word@[0] == 'C' ==> r == Some(PanLetter::Centre),
        word@.len() == 0 || (word@[0] != 'L' && word@[0] != 'R' && word@[0] != 'C') ==> r is None,
{
    if word.unicode_len() == 0 {
        return None;
    }
    let c = word.get_char(0);
    if c == 'L' {
        Some(PanLetter::Left)
    } else if c == 'R' {
        Some(PanLetter::Right)
    } else if c == 'C' {
        Some(PanLetter::Centre)
    } else {
        None
    }
}

} // verus!
