//! `sndreport lens infile [infile2 ...]`: lists the duration of each
//! input, the name dotted out to a column. The durations are rendered by
//! the caller.

use crate::text::push_str;
use vstd::prelude::*;
use vstd::string::*;

verus! {

/// The greeting printed ahead of a bare `sndreport lens`.
pub const GREETING: &'static str = "CDP Release 7.1 2016\n";

/// The usage text of `sndreport lens`.
pub const USAGE: &'static str = "CDP Release 7.1 2016
LIST DURATIONS OF SEVERAL SNDFILING-SYSTEM FILES

USAGE: sndreport lens infile [infile2..]
";

/// The column the durations start at, counted in bytes of the name.
pub const SPACECNT: usize = 32;

/// The number of dots after a name of `bytes` bytes: enough to reach the
/// column, and at least two.
pub open spec fn dot_count(bytes: int) -> int {
    if 32 - bytes > 2 {
        32 - bytes
    } else {
        2
    }
}

/// The durations line up in column 32 after names shorter than 30 bytes;
/// a longer name is followed by exactly two dots.
pub proof fn lemma_dots_reach_the_column(bytes: int)
    requires
        bytes >= 0,
    ensures
        dot_count(bytes) >= 2,
        bytes < 30 ==> bytes + dot_count(bytes) == 32,
        bytes >= 30 ==> dot_count(bytes) == 2,
{
}

/// One line of the listing: the name, its dots, the duration text and a
/// newline.
pub fn lens_line(path: &str, duration: &str) -> (r: String)
    requires
        path.spec_bytes().len() <= usize::MAX,
    ensures
        r@ == path@ + Seq::new(dot_count(path.spec_bytes().len() as int) as nat, |_i: int| '.')
            + duration@ + "\n"@,
{
    let bytes = path.len();
    let dots: usize = if bytes < SPACECNT && SPACECNT - bytes > 2 {
        SPACECNT - bytes
    } else {
        2
    };
    let mut r = String::from_str(path);
    let ghost base = r@;
    let mut k: usize = 0;
    while k < dots
        invariant
            k <= dots,
            r@ == base + Seq::new(k as nat, |_i: int| '.'),
        decreases dots - k,
    {
        crate::text::push_char(&mut r, '.');
        assert(Seq::new((k + 1) as nat, |_i: int| '.') =~= Seq::new(k as nat, |_i: int| '.').push('.'));
        k = k + 1;
    }
    push_str(&mut r, duration);
    push_str(&mut r, "\n");
    r
}

} // verus!
