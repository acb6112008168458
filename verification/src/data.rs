//! The number tokens of the text data formats (breakpoint files and the
//! like): which words of a line are read as numbers. A line is read word by
//! word; a word is a number when it is an optional `-` or `.` followed by
//! digits and at most one `.` in all, with at least one digit. The first
//! word that is not a number (a comment, a word in scientific notation, a
//! second decimal point) ends the line. Converting a token to its value is
//! floating-point work, done by the caller.

use vstd::prelude::*;

verus! {

/// Whether `c` separates words (space, tab, newline, vertical tab, form
/// feed or carriage return).
pub open spec fn is_c_space(c: char) -> bool {
    c == ' ' || c == '\t' || c == '\n' || c == '\u{0B}' || c == '\u{0C}' || c == '\r'
}

/// Whether `c` is an ASCII digit.
pub open spec fn is_digit(c: char) -> bool {
    '0' <= c && c <= '9'
}

/// The first index at or after `i` that holds no white space.
pub open spec fn skip_spaces(s: Seq<char>, i: int) -> int
    decreases s.len() - i,
{
    if i < 0 || i >= s.len() || !is_c_space(s[i]) {
        i
    } else {
        skip_spaces(s, i + 1)
    }
}

/// The end of the word starting at `i`: the first index after it that
/// holds white space, or the end of the line.
pub open spec fn word_end(s: Seq<char>, i: int) -> int
    decreases s.len() - i,
{
    if i < 0 || i >= s.len() || is_c_space(s[i]) {
        i
    } else {
        word_end(s, i + 1)
    }
}

/// The number of `.` in `t`.
pub open spec fn dots(t: Seq<char>) -> int
    decreases t.len(),
{
    if t.len() == 0 {
        0
    } else {
        dots(t.drop_last()) + if t.last() == '.' {
            1int
        } else {
            0int
        }
    }
}

/// Whether the word `t` is a number token.
pub open spec fn is_number_word(t: Seq<char>) -> bool {
    &&& t.len() >= 1
    &&& (t[0] == '-' || t[0] == '.' || is_digit(t[0]))
    &&& forall|k: int| 1 <= k < t.len() ==> is_digit(t[k]) || t[k] == '.'
    &&& dots(t) <= 1
    &&& exists|k: int| 0 <= k < t.len() && is_digit(t[k])
}

/// The spans of the number tokens of `s` from index `i` on, up to the
/// first word that is not a number.
pub open spec fn number_spans(s: Seq<char>, i: int) -> Seq<(int, int)>
    decreases s.len() - i,
{
    let a = skip_spaces(s, i);
    if i < 0 || i >= s.len() || a >= s.len() {
        seq![]
    } else {
        let b = word_end(s, a);
        if b > a && is_number_word(s.subrange(a, b)) {
            proof {
                lemma_scan_bounds(s, i);
                lemma_scan_bounds(s, a);
            }
            seq![(a, b)] + number_spans(s, b)
        } else {
            seq![]
        }
    }
}

/// Skipping spaces and scanning a word stay inside the line and move
/// forward.
pub proof fn lemma_scan_bounds(s: Seq<char>, i: int)
    requires
        0 <= i <= s.len(),
    ensures
        i <= skip_spaces(s, i) <= s.len(),
        i <= word_end(s, i) <= s.len(),
        forall|k: int| i <= k < skip_spaces(s, i) ==> is_c_space(s[k]),
        skip_spaces(s, i) < s.len() ==> !is_c_space(s[skip_spaces(s, i)]),
        forall|k: int| i <= k < word_end(s, i) ==> !is_c_space(s[k]),
        word_end(s, i) < s.len() ==> is_c_space(s[word_end(s, i)]),
    decreases s.len() - i,
{
    if i < s.len() {
        lemma_scan_bounds(s, i + 1);
    }
}

/// Whether `c` separates words.
pub(crate) fn is_c_space_exec(c: char) -> (r: bool)
    ensures
        r == is_c_space(c),
{
    c == ' ' || c == '\t' || c == '\n' || c == '\u{0B}' || c == '\u{0C}' || c == '\r'
}

/// Whether the characters `a .. b` of `s` form a number token.
fn is_number_word_exec(s: &str, a: usize, b: usize) -> (r: bool)
    requires
        a < b <= s@.len(),
    ensures
        r == is_number_word(s@.subrange(a as int, b as int)),
{
    let ghost t = s@.subrange(a as int, b as int);
    let first = s.get_char(a);
    let mut has_digit = '0' <= first && first <= '9';
    let mut dot_count: usize = if first == '.' {
        1
    } else {
        0
    };
    if !(first == '-' || first == '.' || has_digit) {
        return false;
    }
    assert(t.take(1).drop_last() =~= Seq::<char>::empty());
    assert(dots(Seq::<char>::empty()) == 0);
    assert(t.take(1).last() == t[0]);
    assert(dots(t.take(1)) == dots(t.take(1).drop_last()) + if t[0] == '.' {
        1int
    } else {
        0int
    });
    let mut k = a + 1;
    while k < b
        invariant
            a < k <= b <= s@.len(),
            t == s@.subrange(a as int, b as int),
            t[0] == '-' || t[0] == '.' || is_digit(t[0]),
            forall|j: int| 1 <= j < k - a ==> is_digit(t[j]) || t[j] == '.',
            dot_count as int == dots(t.take(k - a)),
            dot_count <= 1,
            has_digit == exists|j: int| 0 <= j < k - a && is_digit(t[j]),
        decreases b - k,
    {
        let c = s.get_char(k);
        assert(t[k - a] == c);
        assert(t.take(k - a + 1).drop_last() =~= t.take(k - a));
        if '0' <= c && c <= '9' {
            has_digit = true;
        } else if c == '.' {
            if dot_count == 1 {
                proof {
                    lemma_dots_prefix(t, k - a + 1);
                }
                return false;
            }
            dot_count = 1;
        } else {
            return false;
        }
        k = k + 1;
    }
    assert(t.take(b - a) =~= t);
    has_digit
}

/// A word has at least as many dots as any of its prefixes.
proof fn lemma_dots_prefix(t: Seq<char>, n: int)
    requires
        0 <= n <= t.len(),
    ensures
        dots(t.take(n)) <= dots(t),
    decreases t.len() - n,
{
    if n < t.len() {
        lemma_dots_prefix(t, n + 1);
        assert(t.take(n + 1).drop_last() =~= t.take(n));
    } else {
        assert(t.take(n) =~= t);
    }
}

/// The spans (character indices, start inclusive, end exclusive) of the
/// number tokens of `line`, in order, up to the first word that is not a
/// number.
pub fn number_tokens(line: &str) -> (r: Vec<(usize, usize)>)
    ensures
        r@.len() == number_spans(line@, 0).len(),
        forall|k: int|
            0 <= k < r@.len() ==> r@[k].0 as int == number_spans(line@, 0)[k].0 && r@[k].1 as int
                == number_spans(line@, 0)[k].1,
{
    let n = line.unicode_len();
    let mut r: Vec<(usize, usize)> = Vec::new();
    let mut i: usize = 0;
    let ghost mut done: Seq<(int, int)> = seq![];
    loop
        invariant
            n == line@.len(),
            i <= n,
            done + number_spans(line@, i as int) == number_spans(line@, 0),
            r@.len() == done.len(),
            forall|k: int| 0 <= k < r@.len() ==> r@[k].0 as int == done[k].0 && r@[k].1 as int == done[k].1,
        decreases n - i,
    {
        proof {
            lemma_scan_bounds(line@, i as int);
        }
        let mut a = i;
        while a < n && is_c_space_exec(line.get_char(a))
            invariant
                n == line@.len(),
                i <= a <= n,
                skip_spaces(line@, i as int) == skip_spaces(line@, a as int),
            decreases n - a,
        {
            a = a + 1;
        }
        if a >= n {
            assert(number_spans(line@, i as int) =~= seq![]);
            assert(done + seq![] =~= done);
            return r;
        }
        proof {
            lemma_scan_bounds(line@, a as int);
        }
        let mut b = a;
        while b < n && !is_c_space_exec(line.get_char(b))
            invariant
                n == line@.len(),
                a <= b <= n,
                word_end(line@, a as int) == word_end(line@, b as int),
            decreases n - b,
        {
            b = b + 1;
        }
        if b > a && is_number_word_exec(line, a, b) {
            r.push((a, b));
            proof {
                assert(number_spans(line@, i as int) == seq![(a as int, b as int)] + number_spans(line@, b as int));
                assert(done.push((a as int, b as int)) + number_spans(line@, b as int) =~= done + (seq![(a as int, b as int)] + number_spans(line@, b as int)));
                done = done.push((a as int, b as int));
            }
            i = b;
        } else {
            assert(number_spans(line@, i as int) =~= seq![]);
            assert(done + seq![] =~= done);
            return r;
        }
    }
}

/// The texts of the number tokens of `s`, in order.
pub open spec fn token_texts(s: Seq<char>) -> Seq<Seq<char>> {
    number_spans(s, 0).map_values(|sp: (int, int)| s.subrange(sp.0, sp.1))
}

/// Spans moved right by `n` characters.
pub open spec fn shifted(spans: Seq<(int, int)>, n: int) -> Seq<(int, int)> {
    spans.map_values(|sp: (int, int)| (sp.0 + n, sp.1 + n))
}

/// Scanning `p + s` from inside `s` reads `s` alone.
proof fn lemma_scan_shift(p: Seq<char>, s: Seq<char>, i: int)
    requires
        0 <= i <= s.len(),
    ensures
        skip_spaces(p + s, p.len() + i) == p.len() + skip_spaces(s, i),
        word_end(p + s, p.len() + i) == p.len() + word_end(s, i),
    decreases s.len() - i,
{
    if i < s.len() {
        assert((p + s)[p.len() + i] == s[i]);
        lemma_scan_shift(p, s, i + 1);
    }
}

/// The number tokens of `p + s` from inside `s` are those of `s`, moved
/// right by the length of `p`.
proof fn lemma_spans_shift(p: Seq<char>, s: Seq<char>, i: int)
    requires
        0 <= i <= s.len(),
    ensures
        number_spans(p + s, p.len() + i) == shifted(number_spans(s, i), p.len() as int),
    decreases s.len() - i,
{
    let ps = p + s;
    let n = p.len() as int;
    lemma_scan_shift(p, s, i);
    lemma_scan_bounds(s, i);
    if i < s.len() {
        let a = skip_spaces(s, i);
        if a < s.len() {
            lemma_scan_bounds(s, a);
            lemma_scan_shift(p, s, a);
            let b = word_end(s, a);
            assert(ps.subrange(n + a, n + b) =~= s.subrange(a, b));
            if b > a && is_number_word(s.subrange(a, b)) {
                lemma_spans_shift(p, s, b);
                assert(shifted(number_spans(s, i), n) =~= seq![(a + n, b + n)] + shifted(number_spans(s, b), n));
            } else {
                assert(shifted(number_spans(s, i), n) =~= seq![]);
            }
        } else {
            assert(shifted(number_spans(s, i), n) =~= seq![]);
        }
    } else {
        assert(shifted(number_spans(s, i), n) =~= seq![]);
    }
}

/// Over leading white space, the scan reaches the same first word from
/// anywhere before it.
proof fn lemma_skip_leading(s: Seq<char>, i: int, j: int)
    requires
        0 <= i <= j <= s.len(),
        forall|k: int| i <= k < j ==> is_c_space(s[k]),
    ensures
        skip_spaces(s, i) == skip_spaces(s, j),
    decreases j - i,
{
    if i < j {
        lemma_skip_leading(s, i + 1, j);
    }
}

/// Indentation does not matter: white space in front of a line leaves the
/// texts of its number tokens as they were.
pub proof fn lemma_indentation_does_not_matter(p: Seq<char>, s: Seq<char>)
    requires
        forall|k: int| 0 <= k < p.len() ==> is_c_space(p[k]),
    ensures
        token_texts(p + s) == token_texts(s),
{
    let ps = p + s;
    let n = p.len() as int;
    assert forall|k: int| 0 <= k < n implies is_c_space(ps[k]) by {
        assert(ps[k] == p[k]);
    }
    lemma_skip_leading(ps, 0, n);
    lemma_spans_shift(p, s, 0);
    lemma_scan_bounds(s, 0);
    lemma_scan_shift(p, s, 0);
    if s.len() > 0 && n > 0 {
        assert(number_spans(ps, 0) == number_spans(ps, n));
    } else if n == 0 {
        assert(ps =~= s);
    } else {
        assert(number_spans(ps, 0) =~= seq![]);
        assert(number_spans(ps, n) =~= seq![]);
    }
    let spans = number_spans(s, 0);
    assert forall|k: int| 0 <= k < spans.len() implies ps.subrange(spans[k].0 + n, spans[k].1 + n)
        =~= s.subrange(spans[k].0, spans[k].1) by {
        lemma_spans_within(s, 0, k);
    }
    assert(token_texts(ps) =~= token_texts(s));
}

/// Every span lies inside the line and past its starting index.
proof fn lemma_spans_within(s: Seq<char>, i: int, k: int)
    requires
        0 <= i <= s.len(),
        0 <= k < number_spans(s, i).len(),
    ensures
        i <= number_spans(s, i)[k].0 <= number_spans(s, i)[k].1 <= s.len(),
    decreases s.len() - i,
{
    lemma_scan_bounds(s, i);
    let a = skip_spaces(s, i);
    lemma_scan_bounds(s, a);
    let b = word_end(s, a);
    if k > 0 {
        lemma_spans_within(s, b, k - 1);
    }
}

} // verus!
