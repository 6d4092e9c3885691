//! Note-file path resolution.
//!
//! When a recording starts, the working note file sits next to the recording
//! output (the output path with its extension replaced by `.txt`); when the
//! server supplies no output path, a temporary name carrying the start
//! timestamp is placed in the cache directory.
use vstd::prelude::*;
use vstd::string::StrSliceExecFns;
use vstd::string::StringExecFns;

use crate::numfmt::push_dec;
use crate::numfmt::spec_dec;

verus! {

/// Path separator characters recognised when locating the final component.
pub open spec fn is_sep(c: char) -> bool {
    c == '/' || c == '\\'
}

/// Index of the first character of the final path component: one past the
/// last separator, or zero when the path holds none.
pub open spec fn comp_start(p: Seq<char>) -> int
    decreases p.len(),
{
    if p.len() == 0 {
        0
    } else if is_sep(p.last()) {
        p.len() as int
    } else {
        comp_start(p.drop_last())
    }
}

/// Index of the last `'.'` strictly after position `lo`, or -1 when there
/// is none. A dot at `lo` itself does not count, so a leading dot of the
/// final component (a hidden file) is never taken for an extension.
pub open spec fn last_dot_after(p: Seq<char>, lo: int) -> int
    decreases p.len(),
{
    if p.len() == 0 || p.len() <= lo + 1 {
        -1
    } else if p.last() == '.' {
        p.len() - 1
    } else {
        last_dot_after(p.drop_last(), lo)
    }
}

pub open spec fn txt_suffix() -> Seq<char> {
    seq!['.', 't', 'x', 't']
}

/// The path with its extension replaced by `.txt`: everything from the last
/// dot of the final component (a leading dot excepted) is cut, and `.txt`
/// appended.
pub open spec fn spec_with_txt_ext(p: Seq<char>) -> Seq<char> {
    let d = last_dot_after(p, comp_start(p));
    if d >= 0 {
        p.take(d) + txt_suffix()
    } else {
        p + txt_suffix()
    }
}

proof fn lemma_comp_start_prefix(p: Seq<char>, i: int)
    requires
        0 <= i <= p.len(),
        forall|j: int| i <= j < p.len() ==> !is_sep(p[j]),
    ensures
        comp_start(p) == comp_start(p.take(i)),
    decreases p.len() - i,
{
    if i == p.len() {
        assert(p.take(i) =~= p);
    } else {
        lemma_comp_start_prefix(p, i + 1);
        assert(p.take(i + 1).drop_last() =~= p.take(i));
    }
}

proof fn lemma_last_dot_prefix(p: Seq<char>, lo: int, i: int)
    requires
        0 <= i <= p.len(),
        forall|j: int| i <= j < p.len() ==> p[j] != '.',
    ensures
        last_dot_after(p, lo) == last_dot_after(p.take(i), lo),
    decreases p.len() - i,
{
    if i == p.len() {
        assert(p.take(i) =~= p);
    } else {
        lemma_last_dot_prefix(p, lo, i + 1);
        assert(p.take(i + 1).drop_last() =~= p.take(i));
    }
}

/// Index of the first character of the final component of `path`.
fn find_comp_start(path: &str, n: usize) -> (cs: usize)
    requires
        n == path@.len(),
    ensures
        cs == comp_start(path@),
        cs <= n,
{
    let mut i: usize = n;
    while i > 0
        invariant
            i <= n,
            n == path@.len(),
            forall|j: int| i <= j < n ==> !is_sep(path@[j]),
        decreases i,
    {
        let c = path.get_char(i - 1);
        if c == '/' || c == '\\' {
            proof {
                lemma_comp_start_prefix(path@, i as int);
                assert(path@.take(i as int).last() == path@[i - 1]);
            }
            return i;
        }
        i = i - 1;
    }
    proof {
        lemma_comp_start_prefix(path@, 0);
        assert(path@.take(0) =~= Seq::<char>::empty());
    }
    0
}

/// Last `'.'` of `path` strictly after `lo`, scanning only the final
/// component's range.
fn find_last_dot(path: &str, n: usize, lo: usize) -> (r: Option<usize>)
    requires
        n == path@.len(),
        lo <= n,
    ensures
        match r {
            Some(d) => last_dot_after(path@, lo as int) == d && lo < d < n,
            None => last_dot_after(path@, lo as int) == -1,
        },
{
    let mut i: usize = n;
    while i > 0 && i - 1 > lo
        invariant
            i <= n,
            n == path@.len(),
            forall|j: int| i <= j < n ==> path@[j] != '.',
        decreases i,
    {
        let c = path.get_char(i - 1);
        if c == '.' {
            proof {
                lemma_last_dot_prefix(path@, lo as int, i as int);
                assert(path@.take(i as int).last() == path@[i - 1]);
            }
            return Some(i - 1);
        }
        i = i - 1;
    }
    proof {
        if i <= lo + 1 {
            lemma_last_dot_prefix(path@, lo as int, i as int);
            assert(path@.take(i as int).len() <= lo + 1);
        }
    }
    None
}

/// The path with its extension replaced by `.txt`.
pub fn with_txt_extension(path: &str) -> (r: String)
    ensures
        r@ == spec_with_txt_ext(path@),
{
    proof {
        reveal_strlit(".txt");
        assert(".txt"@ =~= txt_suffix());
    }
    let n = path.unicode_len();
    let cs = find_comp_start(path, n);
    match find_last_dot(path, n, cs) {
        Some(d) => {
            let stem = path.substring_char(0, d);
            let mut s = String::from_str(stem);
            s.append(".txt");
            proof {
                assert(s@ =~= spec_with_txt_ext(path@));
            }
            s
        },
        None => {
            let mut s = String::from_str(path);
            s.append(".txt");
            proof {
                assert(s@ =~= spec_with_txt_ext(path@));
            }
            s
        },
    }
}

pub open spec fn temp_note_prefix() -> Seq<char> {
    seq!['t', 'e', 'm', 'p', '_', 'r', 'e', 'c', 'o', 'r', 'd', 'i', 'n', 'g', '_']
}

/// Name of the temporary note file for a recording whose effective start
/// epoch is `now` milliseconds.
pub open spec fn spec_temp_note_name(now: int) -> Seq<char> {
    temp_note_prefix() + spec_dec(now) + txt_suffix()
}

/// Where the note file for a starting recording goes: the server-supplied
/// output path with a `.txt` extension when there is one, else a
/// timestamped temporary name under the cache directory (bare when no cache
/// directory is known).
pub open spec fn spec_resolve_note_path(
    path: Option<Seq<char>>,
    cache_dir: Option<Seq<char>>,
    now: int,
) -> Seq<char> {
    match path {
        Some(p) => spec_with_txt_ext(p),
        None => match cache_dir {
            Some(c) => c + seq!['/'] + spec_temp_note_name(now),
            None => spec_temp_note_name(now),
        },
    }
}

/// Resolves the note-file path for a recording that starts at epoch `now`.
pub fn resolve_note_file_path(path: Option<String>, cache_dir: Option<&str>, now: i64) -> (r:
    String)
    requires
        0 <= now,
    ensures
        r@ == spec_resolve_note_path(path.deep_view(), cache_dir.deep_view(), now as int),
{
    proof {
        reveal_strlit(".txt");
        reveal_strlit("/");
        reveal_strlit("temp_recording_");
        assert(".txt"@ =~= txt_suffix());
        assert("temp_recording_"@ =~= temp_note_prefix());
    }
    match path {
        Some(p) => with_txt_extension(p.as_str()),
        None => {
            let mut s = match cache_dir {
                Some(c) => {
                    let mut s = String::from_str(c);
                    s.append("/");
                    s
                },
                None => String::new(),
            };
            s.append("temp_recording_");
            push_dec(&mut s, now as u64);
            s.append(".txt");
            proof {
                assert(s@ =~= spec_resolve_note_path(
                    path.deep_view(),
                    cache_dir.deep_view(),
                    now as int,
                ));
            }
            s
        },
    }
}

} // verus!
