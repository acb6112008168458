//! `housekeep sort mode infile outfile`: sorts the sound files named in a
//! list file into groups, by sample rate, file type or channel count, and
//! writes one list file per group, named after the output name and the
//! group.
//!
//! Each file that opens is reduced to an integer key; [`group_by_key`]
//! forms the groups in ascending key order, each listing its files in the
//! order of the input list.

use crate::error::{CdpError, ExitCategory};
use crate::sound::FileKindTag;
use crate::text::{decimal, last_index_of, last_index_of_exec, push_decimal, push_str, trim, trimmed};
use vstd::prelude::*;
use vstd::string::*;

verus! {

/// The greeting printed ahead of a bare command.
pub const GREETING: &'static str = "CDP Release 7.1 2016\n";

/// The usage text of `housekeep sort`.
pub const USAGE: &'static str = "CDP Release 7.1 2016
SORT FILES INTO GROUPS BASED ON THEIR PROPERTIES

USAGE: housekeep sort mode infile outfile

MODES ARE
1) SORT BY SAMPLE RATE
2) SORT BY FILE TYPE (mono, stereo, analysis, etc)
4) SORT BY CHANNEL COUNT

";

/// What `housekeep sort` groups by.
#[derive(Debug, Clone, Copy, PartialEq, Eq, Structural)]
pub enum Mode {
    SampleRate,
    FileType,
    ChannelCount,
}

/// The mode numbered `mode` (1, 2 or 4).
pub open spec fn mode_of(mode: u32) -> Option<Mode> {
    if mode == 1 {
        Some(Mode::SampleRate)
    } else if mode == 2 {
        Some(Mode::FileType)
    } else if mode == 4 {
        Some(Mode::ChannelCount)
    } else {
        None
    }
}

impl Mode {
    /// The mode numbered `mode`, or `None`.
    pub fn from_number(mode: u32) -> (r: Option<Mode>)
        ensures
            r == mode_of(mode),
    {
        match mode {
            1 => Some(Mode::SampleRate),
            2 => Some(Mode::FileType),
            4 => Some(Mode::ChannelCount),
            _ => None,
        }
    }
}

/// The name of a file kind in the group file names.
pub open spec fn kind_name(kind: FileKindTag) -> Seq<char> {
    match kind {
        FileKindTag::Wave => "wave"@,
        FileKindTag::Analysis => "analysis"@,
        FileKindTag::Pitch => "pitch"@,
        FileKindTag::Transposition => "transposition"@,
        FileKindTag::Formant => "formant"@,
        FileKindTag::Envelope => "envelope"@,
    }
}

/// The position of a file kind's name in alphabetical order, which is the
/// order in which the file-type groups are written.
pub open spec fn kind_rank(kind: FileKindTag) -> u64 {
    match kind {
        FileKindTag::Analysis => 0,
        FileKindTag::Envelope => 1,
        FileKindTag::Formant => 2,
        FileKindTag::Pitch => 3,
        FileKindTag::Transposition => 4,
        FileKindTag::Wave => 5,
    }
}

/// The file kind at position `rank` in alphabetical order of names.
pub open spec fn kind_of_rank(rank: u64) -> FileKindTag {
    if rank == 0 {
        FileKindTag::Analysis
    } else if rank == 1 {
        FileKindTag::Envelope
    } else if rank == 2 {
        FileKindTag::Formant
    } else if rank == 3 {
        FileKindTag::Pitch
    } else if rank == 4 {
        FileKindTag::Transposition
    } else {
        FileKindTag::Wave
    }
}

/// Whether `a` comes before `b` in lexicographic order of characters.
pub open spec fn lex_less(a: Seq<char>, b: Seq<char>) -> bool
    decreases a.len(),
{
    if a.len() == 0 {
        b.len() > 0
    } else if b.len() == 0 {
        false
    } else if a[0] != b[0] {
        a[0] < b[0]
    } else {
        lex_less(a.drop_first(), b.drop_first())
    }
}

/// Ranks lead back to their kind and follow the alphabetical order of the
/// kinds' names, which is the order of the file-type groups.
pub proof fn lemma_kind_rank(a: FileKindTag, b: FileKindTag)
    ensures
        kind_of_rank(kind_rank(a)) == a,
        kind_rank(a) < kind_rank(b) ==> lex_less(kind_name(a), kind_name(b)),
{
    reveal_strlit("wave");
    reveal_strlit("analysis");
    reveal_strlit("pitch");
    reveal_strlit("transposition");
    reveal_strlit("formant");
    reveal_strlit("envelope");
}

/// The rank of a file kind.
pub fn kind_rank_exec(kind: FileKindTag) -> (r: u64)
    ensures
        r == kind_rank(kind),
{
    match kind {
        FileKindTag::Analysis => 0,
        FileKindTag::Envelope => 1,
        FileKindTag::Formant => 2,
        FileKindTag::Pitch => 3,
        FileKindTag::Transposition => 4,
        FileKindTag::Wave => 5,
    }
}

/// The name of a file kind.
pub fn file_type_name(kind: FileKindTag) -> (r: &'static str)
    ensures
        r@ == kind_name(kind),
{
    match kind {
        FileKindTag::Wave => "wave",
        FileKindTag::Analysis => "analysis",
        FileKindTag::Pitch => "pitch",
        FileKindTag::Transposition => "transposition",
        FileKindTag::Formant => "formant",
        FileKindTag::Envelope => "envelope",
    }
}

/// The indices below `n` whose key is `k`, in ascending order.
pub open spec fn indices_with(keys: Seq<Option<u64>>, k: u64, n: int) -> Seq<usize>
    decreases n,
{
    if n <= 0 {
        seq![]
    } else {
        let p = indices_with(keys, k, n - 1);
        if keys[n - 1] == Some(k) {
            p.push((n - 1) as usize)
        } else {
            p
        }
    }
}

/// Whether `groups` groups the inputs with keys `keys`: one group per key
/// that occurs, in strictly ascending key order, each holding the indices
/// of the inputs with its key in input order. Inputs without a key (files
/// that did not open) are in no group.
pub open spec fn is_grouping(keys: Seq<Option<u64>>, groups: Seq<(u64, Seq<usize>)>) -> bool {
    &&& forall|a: int, b: int| 0 <= a < b < groups.len() ==> groups[a].0 < groups[b].0
    &&& forall|g: int|
        0 <= g < groups.len() ==> groups[g].1 == indices_with(keys, groups[g].0, keys.len() as int)
            && groups[g].1.len() > 0
    &&& forall|i: int|
        0 <= i < keys.len() && keys[i] is Some ==> exists|g: int|
            0 <= g < groups.len() && groups[g].0 == keys[i].unwrap()
}

/// The keys of the groups, in ascending order, with the index list of each.
pub open spec fn group_views(groups: Seq<(u64, Vec<usize>)>) -> Seq<(u64, Seq<usize>)> {
    groups.map_values(|g: (u64, Vec<usize>)| (g.0, g.1@))
}

/// Whether some input among the first `n` has key `k`.
pub open spec fn key_occurs(keys: Seq<Option<u64>>, k: u64, n: int) -> bool {
    exists|i: int| 0 <= i < n && keys[i] == Some(k)
}

/// The indices of the inputs whose key is `k`.
fn indices_with_exec(keys: &Vec<Option<u64>>, k: u64) -> (r: Vec<usize>)
    ensures
        r@ == indices_with(keys@, k, keys@.len() as int),
{
    let mut r: Vec<usize> = Vec::new();
    let mut i: usize = 0;
    while i < keys.len()
        invariant
            i <= keys@.len(),
            r@ == indices_with(keys@, k, i as int),
        decreases keys@.len() - i,
    {
        if keys[i] == Some(k) {
            r.push(i);
        }
        i = i + 1;
    }
    r
}

/// An input with key `k` is among the indices with that key.
proof fn lemma_indices_with_contains(keys: Seq<Option<u64>>, k: u64, n: int, i: int)
    requires
        0 <= i < n <= keys.len(),
        keys[i] == Some(k),
    ensures
        indices_with(keys, k, n).len() > 0,
    decreases n,
{
    if i < n - 1 {
        lemma_indices_with_contains(keys, k, n - 1, i);
    }
}

/// The distinct keys of `keys`, in strictly ascending order.
fn distinct_keys(keys: &Vec<Option<u64>>) -> (r: Vec<u64>)
    ensures
        forall|a: int, b: int| 0 <= a < b < r@.len() ==> r@[a] < r@[b],
        forall|j: int| 0 <= j < r@.len() ==> key_occurs(keys@, r@[j], keys@.len() as int),
        forall|i: int|
            0 <= i < keys@.len() && keys@[i] is Some ==> exists|j: int|
                0 <= j < r@.len() && r@[j] == keys@[i].unwrap(),
{
    let mut r: Vec<u64> = Vec::new();
    let mut i: usize = 0;
    while i < keys.len()
        invariant
            i <= keys@.len(),
            forall|a: int, b: int| 0 <= a < b < r@.len() ==> r@[a] < r@[b],
            forall|j: int| 0 <= j < r@.len() ==> key_occurs(keys@, r@[j], i as int),
            forall|x: int|
                0 <= x < i && keys@[x] is Some ==> exists|j: int|
                    0 <= j < r@.len() && r@[j] == keys@[x].unwrap(),
        decreases keys@.len() - i,
    {
        if let Some(k) = keys[i] {
            let mut p: usize = 0;
            while p < r.len() && r[p] < k
                invariant
                    p <= r@.len(),
                    forall|a: int| 0 <= a < p ==> r@[a] < k,
                decreases r@.len() - p,
            {
                p = p + 1;
            }
            if p < r.len() && r[p] == k {
                assert(keys@[i as int] == Some(r@[p as int]));
            } else {
                let ghost old_r = r@;
                r.insert(p, k);
                assert forall|a: int, b: int| 0 <= a < b < r@.len() implies r@[a] < r@[b] by {
                    if b < p {
                    } else if b == p {
                    } else if a < p {
                        assert(old_r[b - 1] >= k) by {
                            assert(old_r[p as int] >= k);
                            if p as int != b - 1 {
                                assert(old_r[p as int] < old_r[b - 1]);
                            }
                        }
                    } else if a == p {
                        assert(old_r[p as int] > k);
                        if p as int != b - 1 {
                            assert(old_r[p as int] < old_r[b - 1]);
                        }
                    } else {
                        assert(old_r[a - 1] < old_r[b - 1]);
                    }
                }
                assert forall|j: int| 0 <= j < r@.len() implies key_occurs(keys@, r@[j], i + 1) by {
                    if j < p {
                        assert(r@[j] == old_r[j]);
                        assert(key_occurs(keys@, old_r[j], i as int));
                    } else if j == p {
                        assert(keys@[i as int] == Some(r@[j]));
                    } else {
                        assert(r@[j] == old_r[j - 1]);
                        assert(key_occurs(keys@, old_r[j - 1], i as int));
                    }
                }
                assert forall|x: int|
                    0 <= x < i + 1 && keys@[x] is Some implies exists|j: int|
                        0 <= j < r@.len() && r@[j] == keys@[x].unwrap() by {
                    if x < i {
                        let j = choose|j: int| 0 <= j < old_r.len() && old_r[j] == keys@[x].unwrap();
                        if j < p {
                            assert(r@[j] == old_r[j]);
                        } else {
                            assert(r@[j + 1] == old_r[j]);
                        }
                    } else {
                        assert(r@[p as int] == k);
                    }
                }
            }
        }
        i = i + 1;
    }
    r
}

/// The groups of the inputs with keys `keys` (see [`is_grouping`]).
pub fn group_by_key(keys: &Vec<Option<u64>>) -> (r: Vec<(u64, Vec<usize>)>)
    ensures
        is_grouping(keys@, group_views(r@)),
{
    let distinct = distinct_keys(keys);
    let mut r: Vec<(u64, Vec<usize>)> = Vec::new();
    let mut g: usize = 0;
    while g < distinct.len()
        invariant
            g <= distinct@.len(),
            r@.len() == g,
            forall|a: int, b: int| 0 <= a < b < distinct@.len() ==> distinct@[a] < distinct@[b],
            forall|j: int| 0 <= j < distinct@.len() ==> key_occurs(keys@, distinct@[j], keys@.len() as int),
            forall|j: int| 0 <= j < g ==> r@[j].0 == distinct@[j] && r@[j].1@ == indices_with(keys@, distinct@[j], keys@.len() as int)
                && r@[j].1@.len() > 0,
        decreases distinct@.len() - g,
    {
        let k = distinct[g];
        let members = indices_with_exec(keys, k);
        proof {
            assert(key_occurs(keys@, distinct@[g as int], keys@.len() as int));
            let i = choose|i: int| 0 <= i < keys@.len() && keys@[i] == Some(distinct@[g as int]);
            lemma_indices_with_contains(keys@, k, keys@.len() as int, i);
        }
        r.push((k, members));
        g = g + 1;
    }
    let ghost views = group_views(r@);
    assert forall|x: int| 0 <= x < views.len() implies views[x] == (r@[x].0, r@[x].1@) by {}
    assert forall|a: int, b: int| 0 <= a < b < views.len() implies views[a].0 < views[b].0 by {
        assert(views[a] == (r@[a].0, r@[a].1@));
        assert(views[b] == (r@[b].0, r@[b].1@));
        assert(r@[a].0 == distinct@[a]);
        assert(r@[b].0 == distinct@[b]);
        assert(distinct@[a] < distinct@[b]);
    }
    assert forall|x: int| 0 <= x < views.len() implies views[x].1 == indices_with(
        keys@,
        views[x].0,
        keys@.len() as int,
    ) && views[x].1.len() > 0 by {
        assert(views[x] == (r@[x].0, r@[x].1@));
        assert(r@[x].0 == distinct@[x]);
        assert(r@[x].1@ == indices_with(keys@, distinct@[x], keys@.len() as int));
    }
    assert forall|i: int|
        0 <= i < keys@.len() && keys@[i] is Some implies exists|x: int|
            0 <= x < views.len() && views[x].0 == keys@[i].unwrap() by {
        let j = choose|j: int| 0 <= j < distinct@.len() && distinct@[j] == keys@[i].unwrap();
        assert(views[j].0 == r@[j].0);
    }
    r
}

/// `name` without its extension: everything before its last `.`, or all of
/// it where there is none.
pub open spec fn without_extension(name: Seq<char>) -> Seq<char> {
    match last_index_of(name, '.') {
        Some(dot) => name.take(dot),
        None => name,
    }
}

/// `filename` without its extension (`/path/to/file.txt`: `/path/to/file`).
pub fn strip_extension(filename: &str) -> (r: String)
    ensures
        r@ == without_extension(filename@),
{
    match last_index_of_exec(filename, '.') {
        Some(dot) => {
            let r = String::from_str(filename.substring_char(0, dot));
            assert(r@ =~= filename@.take(dot as int));
            r
        },
        None => String::from_str(filename),
    }
}

/// The label of a channel-count group.
pub open spec fn channel_label(channels: u64) -> Seq<char> {
    if channels == 1 {
        "mono"@
    } else if channels == 2 {
        "stereo"@
    } else {
        decimal(channels as nat) + "ch"@
    }
}

/// The name of the list file of the group with key `key`: the output name
/// without its extension, `_`, the group (`<rate>_Hz`, the kind's name, or
/// the channel label) and `.txt`.
pub open spec fn group_filename(mode: Mode, outfile: Seq<char>, key: u64) -> Seq<char> {
    without_extension(outfile) + "_"@ + match mode {
        Mode::SampleRate => decimal(key as nat) + "_Hz"@,
        Mode::FileType => kind_name(kind_of_rank(key)),
        Mode::ChannelCount => channel_label(key),
    } + ".txt"@
}

/// The name of the list file of the group with key `key`
/// (`out.txt`, sample rate 44100: `out_44100_Hz.txt`).
pub fn sort_group_filename(mode: Mode, outfile: &str, key: u64) -> (r: String)
    ensures
        r@ == group_filename(mode, outfile@, key),
{
    let mut r = strip_extension(outfile);
    push_str(&mut r, "_");
    match mode {
        Mode::SampleRate => {
            push_decimal(&mut r, key);
            push_str(&mut r, "_Hz");
        },
        Mode::FileType => {
            let kind = if key == 0 {
                FileKindTag::Analysis
            } else if key == 1 {
                FileKindTag::Envelope
            } else if key == 2 {
                FileKindTag::Formant
            } else if key == 3 {
                FileKindTag::Pitch
            } else if key == 4 {
                FileKindTag::Transposition
            } else {
                FileKindTag::Wave
            };
            push_str(&mut r, file_type_name(kind));
        },
        Mode::ChannelCount => {
            if key == 1 {
                push_str(&mut r, "mono");
            } else if key == 2 {
                push_str(&mut r, "stereo");
            } else {
                push_decimal(&mut r, key);
                push_str(&mut r, "ch");
            }
        },
    }
    push_str(&mut r, ".txt");
    r
}

/// The names a list file holds: each line with its surrounding white space
/// removed, blank lines left out.
pub open spec fn listed(lines: Seq<Seq<char>>) -> Seq<Seq<char>>
    decreases lines.len(),
{
    if lines.len() == 0 {
        seq![]
    } else {
        let p = listed(lines.drop_last());
        let t = trim(lines.last());
        if t.len() > 0 {
            p.push(t)
        } else {
            p
        }
    }
}

/// The names held by the lines of a list file.
pub fn listed_names(lines: &Vec<String>) -> (r: Vec<String>)
    ensures
        r@.map_values(|s: String| s@) == listed(lines@.map_values(|s: String| s@)),
{
    let ghost all = lines@.map_values(|s: String| s@);
    let mut r: Vec<String> = Vec::new();
    let mut i: usize = 0;
    while i < lines.len()
        invariant
            i <= lines@.len(),
            all == lines@.map_values(|s: String| s@),
            r@.map_values(|s: String| s@) == listed(all.take(i as int)),
        decreases lines@.len() - i,
    {
        let t = trimmed(lines[i].as_str());
        let ghost before = r@;
        assert(all.take(i + 1).drop_last() =~= all.take(i as int));
        assert(all.take(i + 1).last() == lines@[i as int]@);
        if t.unicode_len() > 0 {
            r.push(t);
            assert(r@.map_values(|s: String| s@) =~= before.map_values(|s: String| s@).push(
                trim(lines@[i as int]@),
            ));
        }
        i = i + 1;
    }
    assert(all.take(lines@.len() as int) =~= all);
    r
}

/// The message printed for a written group list (`out_44100_Hz.txt`
/// holding 3 files: `Created out_44100_Hz.txt with 3 files at 44100 Hz`).
pub open spec fn group_message(mode: Mode, out_path: Seq<char>, count: nat, key: u64) -> Seq<char> {
    "Created "@ + out_path + " with "@ + decimal(count) + match mode {
        Mode::SampleRate => " files at "@ + decimal(key as nat) + " Hz"@,
        Mode::FileType => " "@ + kind_name(kind_of_rank(key)) + " files"@,
        Mode::ChannelCount => " "@ + channel_label(key) + " files"@,
    }
}

/// The message printed once the list of the group with key `key`, holding
/// `count` names, is written to `out_path`.
pub fn sort_group_message(mode: Mode, out_path: &str, count: usize, key: u64) -> (r: String)
    ensures
        r@ == group_message(mode, out_path@, count as nat, key),
{
    let mut r = String::from_str("Created ");
    push_str(&mut r, out_path);
    push_str(&mut r, " with ");
    push_decimal(&mut r, count as u64);
    match mode {
        Mode::SampleRate => {
            push_str(&mut r, " files at ");
            push_decimal(&mut r, key);
            push_str(&mut r, " Hz");
        },
        Mode::FileType => {
            let kind = if key == 0 {
                FileKindTag::Analysis
            } else if key == 1 {
                FileKindTag::Envelope
            } else if key == 2 {
                FileKindTag::Formant
            } else if key == 3 {
                FileKindTag::Pitch
            } else if key == 4 {
                FileKindTag::Transposition
            } else {
                FileKindTag::Wave
            };
            push_str(&mut r, " ");
            push_str(&mut r, file_type_name(kind));
            push_str(&mut r, " files");
        },
        Mode::ChannelCount => {
            push_str(&mut r, " ");
            if key == 1 {
                push_str(&mut r, "mono");
            } else if key == 2 {
                push_str(&mut r, "stereo");
            } else {
                push_decimal(&mut r, key);
                push_str(&mut r, "ch");
            }
            push_str(&mut r, " files");
        },
    }
    r
}

/// The error of a sort given fewer than two file names (the list to read
/// and the output name), if any.
pub fn check_sort_files(count: usize) -> (r: Result<(), CdpError>)
    ensures
        count >= 2 ==> r is Ok,
        count < 2 ==> (r matches Err(e) && e.category == ExitCategory::UsageOnly && e.message@
            == "sort requires an input text file and output text file\n"@),
{
    if count < 2 {
        Err(CdpError::new(ExitCategory::UsageOnly, "sort requires an input text file and output text file\n"))
    } else {
        Ok(())
    }
}

} // verus!
