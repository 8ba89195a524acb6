//! Path dissection for the metadata resolver: the file part of a path,
//! its stem, and the sibling cover-image candidates derived from it.
//!
//! The rules follow the standard library's path dissection on
//! Unix-style paths, where they are pinned down exactly: `'/'` is the
//! one separator and a backslash is an ordinary character; trailing
//! separators and trailing `.` components are ignored; a path whose
//! last component is `..`, or that has no component at all, has no file
//! name.  Everything here is on characters of the path string itself;
//! whether a candidate exists on disk is the caller's business
//! (`first_present` takes the answers as a vector of flags).

use vstd::prelude::*;
use vstd::string::StrSliceExecFns;
use vstd::string::StringExecFns;

verus! {

/// The one separator recognised in paths.
pub open spec fn is_separator(c: char) -> bool {
    c == '/'
}

/// Whether the path ends in a lone `.` component (it is `.` itself, or
/// ends in `/.`).
pub open spec fn ends_with_dot_component(s: Seq<char>) -> bool {
    &&& s.len() > 0
    &&& s.last() == '.'
    &&& (s.len() == 1 || is_separator(s[s.len() - 2]))
}

/// The path with trailing separators and trailing `.` components
/// stripped: the form the file name is read from.
pub open spec fn normalized(s: Seq<char>) -> Seq<char>
    decreases s.len(),
{
    if s.len() == 0 {
        s
    } else if is_separator(s.last()) || ends_with_dot_component(s) {
        normalized(s.drop_last())
    } else {
        s
    }
}

/// A normalized path is no longer than the original and, when nonempty,
/// ends in neither a separator nor a `.` component.
pub proof fn lemma_normalized_form(s: Seq<char>)
    ensures
        normalized(s).len() <= s.len(),
        normalized(s).len() > 0 ==> !is_separator(normalized(s).last()),
        normalized(s).len() > 0 ==> !ends_with_dot_component(normalized(s)),
    decreases s.len(),
{
    if s.len() > 0 && (is_separator(s.last()) || ends_with_dot_component(s)) {
        lemma_normalized_form(s.drop_last());
    }
}

/// Index one past the last separator: the start of the file part, or 0
/// when the path holds no separator.
pub open spec fn file_part_start(s: Seq<char>) -> int
    decreases s.len(),
{
    if s.len() == 0 {
        0
    } else if is_separator(s[s.len() - 1]) {
        s.len() as int
    } else {
        file_part_start(s.drop_last())
    }
}

/// The start of the file part lies within the path.
pub proof fn lemma_file_part_start_range(s: Seq<char>)
    ensures
        0 <= file_part_start(s) <= s.len(),
    decreases s.len(),
{
    if s.len() > 0 && !is_separator(s[s.len() - 1]) {
        lemma_file_part_start_range(s.drop_last());
    }
}

/// A path that does not end in a separator has a nonempty file part.
pub proof fn lemma_file_part_nonempty(s: Seq<char>)
    requires
        s.len() > 0,
        !is_separator(s.last()),
    ensures
        0 <= file_part_start(s) < s.len(),
{
    lemma_file_part_start_range(s.drop_last());
}

/// The file name of a path, as the standard library reads it: the last
/// component of the normalized path, or nothing when no component is
/// left or the last one is `..`.
pub open spec fn file_name_opt(s: Seq<char>) -> Option<Seq<char>> {
    let t = normalized(s);
    if t.len() == 0 {
        None
    } else {
        let name = t.subrange(file_part_start(t), t.len() as int);
        if name == ".."@ {
            None
        } else {
            Some(name)
        }
    }
}

/// The name reported for a track: the file name of its path, or the
/// fallback name when the path has none.
pub open spec fn filename_spec(s: Seq<char>) -> Seq<char> {
    match file_name_opt(s) {
        Some(name) => name,
        None => "Unknown"@,
    }
}

/// Index of the last `'.'` in a name, or -1 when there is none.
pub open spec fn last_dot(s: Seq<char>) -> int
    decreases s.len(),
{
    if s.len() == 0 {
        -1
    } else if s[s.len() - 1] == '.' {
        s.len() - 1
    } else {
        last_dot(s.drop_last())
    }
}

/// The last dot, if any, lies within the name.
pub proof fn lemma_last_dot_range(s: Seq<char>)
    ensures
        -1 <= last_dot(s) < s.len(),
    decreases s.len(),
{
    if s.len() > 0 && s[s.len() - 1] != '.' {
        lemma_last_dot_range(s.drop_last());
    }
}

/// Where a file name's stem ends: at the last `'.'`, unless that dot is
/// the leading character (a hidden file keeps its whole name) or there
/// is no dot at all (the stem is the whole name).
pub open spec fn stem_end(name: Seq<char>) -> int {
    if last_dot(name) > 0 {
        last_dot(name)
    } else {
        name.len() as int
    }
}

/// The directory part of a path: the normalized path up to its file
/// name, trailing separator included; empty for a bare file name.
pub open spec fn dir_spec(s: Seq<char>) -> Seq<char> {
    normalized(s).subrange(0, file_part_start(normalized(s)))
}

/// The stem of a path's file name: the name with its extension cut off;
/// empty when the path has no file name.
pub open spec fn stem_spec(s: Seq<char>) -> Seq<char> {
    match file_name_opt(s) {
        Some(name) => name.subrange(0, stem_end(name)),
        None => Seq::empty(),
    }
}

/// Find the end of the normalized prefix of `path`: the index that cuts
/// off trailing separators and trailing `.` components.
fn normalize_end(path: &str) -> (t: usize)
    ensures
        t <= path@.len(),
        path@.subrange(0, t as int) == normalized(path@),
{
    let n = path.unicode_len();
    let mut t: usize = n;
    let mut done: bool = false;
    proof {
        assert(path@.subrange(0, n as int) =~= path@);
    }
    while !done && t > 0
        invariant
            t <= n,
            n == path@.len(),
            normalized(path@) == normalized(path@.subrange(0, t as int)),
            done ==> normalized(path@.subrange(0, t as int)) == path@.subrange(0, t as int),
        decreases t + (if done {
            0int
        } else {
            1int
        }),
    {
        let c = path.get_char(t - 1);
        let ghost pre = path@.subrange(0, t as int);
        proof {
            assert(pre.last() == c);
            assert(pre.drop_last() =~= path@.subrange(0, t - 1));
        }
        if c == '/' {
            t = t - 1;
        } else if c == '.' {
            if t == 1 {
                t = t - 1;
            } else {
                let c2 = path.get_char(t - 2);
                proof {
                    assert(pre[t - 2] == c2);
                }
                if c2 == '/' {
                    t = t - 1;
                } else {
                    done = true;
                }
            }
        } else {
            done = true;
        }
    }
    t
}

/// Find the start of the file part of `path`.
fn split_index(path: &str) -> (i: usize)
    ensures
        i == file_part_start(path@),
        i <= path@.len(),
{
    let n = path.unicode_len();
    let mut start: usize = 0;
    let mut j: usize = 0;
    while j < n
        invariant
            j <= n,
            n == path@.len(),
            start <= j,
            start == file_part_start(path@.subrange(0, j as int)),
        decreases n - j,
    {
        let c = path.get_char(j);
        proof {
            assert(path@.subrange(0, j + 1).drop_last() =~= path@.subrange(0, j as int));
            assert(path@.subrange(0, j + 1)[j as int] == c);
        }
        if c == '/' {
            start = j + 1;
        }
        j = j + 1;
    }
    proof {
        assert(path@.subrange(0, n as int) =~= path@);
    }
    start
}

/// Find where the stem of `name` ends.
fn stem_split(name: &str) -> (e: usize)
    ensures
        e == stem_end(name@),
        e <= name@.len(),
{
    let n = name.unicode_len();
    let mut dot: usize = 0;
    let mut have_dot: bool = false;
    let mut j: usize = 0;
    while j < n
        invariant
            j <= n,
            n == name@.len(),
            (if have_dot {
                dot as int
            } else {
                -1
            }) == last_dot(name@.subrange(0, j as int)),
        decreases n - j,
    {
        let c = name.get_char(j);
        proof {
            assert(name@.subrange(0, j + 1).drop_last() =~= name@.subrange(0, j as int));
            assert(name@.subrange(0, j + 1)[j as int] == c);
        }
        if c == '.' {
            dot = j;
            have_dot = true;
        }
        j = j + 1;
    }
    proof {
        assert(name@.subrange(0, n as int) =~= name@);
        lemma_last_dot_range(name@);
    }
    if have_dot && dot > 0 {
        dot
    } else {
        n
    }
}

/// Whether a name is the parent-directory component.
fn is_dot_dot(name: &str) -> (r: bool)
    ensures
        r == (name@ == ".."@),
{
    proof {
        reveal_strlit("..");
    }
    if name.unicode_len() == 2 {
        let r = name.get_char(0) == '.' && name.get_char(1) == '.';
        proof {
            if r {
                assert(name@ =~= ".."@);
            }
        }
        r
    } else {
        false
    }
}

/// The name reported for the track at `path`: its file name, or the
/// fallback name when the path has none.
pub fn filename_of(path: &str) -> (r: String)
    ensures
        r@ == filename_spec(path@),
{
    let t = normalize_end(path);
    if t == 0 {
        return String::from_str("Unknown");
    }
    let norm = path.substring_char(0, t);
    let start = split_index(norm);
    proof {
        lemma_normalized_form(path@);
        lemma_file_part_nonempty(norm@);
    }
    let name = norm.substring_char(start, t);
    if is_dot_dot(name) {
        String::from_str("Unknown")
    } else {
        name.to_owned()
    }
}

/// The image extensions probed for a sibling cover, in probe order.
pub open spec fn cover_exts() -> Seq<Seq<char>> {
    seq!["jpg"@, "jpeg"@, "png"@, "webp"@, "gif"@, "bmp"@]
}

/// The sibling image candidate for one extension: same directory, same
/// stem, the given extension.
pub open spec fn cover_candidate_spec(s: Seq<char>, ext: Seq<char>) -> Seq<char> {
    dir_spec(s) + stem_spec(s) + "."@ + ext
}

/// Join directory, stem and extension into one candidate path.
fn join_candidate(dir: &str, stem: &str, ext: &str) -> (r: String)
    ensures
        r@ == dir@ + stem@ + "."@ + ext@,
{
    let mut s = String::from_str(dir);
    s.append(stem);
    s.append(".");
    s.append(ext);
    s
}

/// The sibling image candidates for the track at `path`, in probe
/// order, or nothing when the path has no file name to derive a stem
/// from.
pub fn cover_candidates(path: &str) -> (r: Option<Vec<String>>)
    ensures
        (r is Some) == (file_name_opt(path@) is Some),
        r matches Some(v) ==> v@.len() == cover_exts().len() && (forall|i: int|
            0 <= i < v@.len() ==> v@[i]@ == cover_candidate_spec(path@, cover_exts()[i])),
{
    let t = normalize_end(path);
    if t == 0 {
        return None;
    }
    let norm = path.substring_char(0, t);
    let start = split_index(norm);
    proof {
        lemma_normalized_form(path@);
        lemma_file_part_nonempty(norm@);
    }
    let name = norm.substring_char(start, t);
    if is_dot_dot(name) {
        return None;
    }
    let dir = norm.substring_char(0, start);
    let e = stem_split(name);
    let stem = name.substring_char(0, e);
    proof {
        assert(dir@ == dir_spec(path@));
        assert(stem@ == stem_spec(path@));
    }
    let mut v: Vec<String> = Vec::new();
    v.push(join_candidate(dir, stem, "jpg"));
    v.push(join_candidate(dir, stem, "jpeg"));
    v.push(join_candidate(dir, stem, "png"));
    v.push(join_candidate(dir, stem, "webp"));
    v.push(join_candidate(dir, stem, "gif"));
    v.push(join_candidate(dir, stem, "bmp"));
    proof {
        assert forall|i: int| 0 <= i < v@.len() implies v@[i]@ == cover_candidate_spec(
            path@,
            cover_exts()[i],
        ) by {
            if i == 0 {
                assert(cover_exts()[0] == "jpg"@);
            } else if i == 1 {
                assert(cover_exts()[1] == "jpeg"@);
            } else if i == 2 {
                assert(cover_exts()[2] == "png"@);
            } else if i == 3 {
                assert(cover_exts()[3] == "webp"@);
            } else if i == 4 {
                assert(cover_exts()[4] == "gif"@);
            } else {
                assert(cover_exts()[5] == "bmp"@);
            }
        }
    }
    Some(v)
}

/// Pick the earliest candidate that is present.  `present[i]` answers
/// whether `candidates[i]` exists on disk; the result is the first
/// candidate whose answer is yes, or nothing when every answer is no.
pub fn first_present(candidates: &Vec<String>, present: &Vec<bool>) -> (r: Option<String>)
    requires
        candidates@.len() == present@.len(),
    ensures
        r matches Some(p) ==> exists|i: int|
            0 <= i < present@.len() && present@[i] && p@ == candidates@[i]@ && (forall|j: int|
                0 <= j < i ==> !present@[j]),
        r is None ==> forall|j: int| 0 <= j < present@.len() ==> !present@[j],
{
    let n = present.len();
    let mut k: usize = 0;
    while k < n
        invariant
            k <= n,
            n == present@.len(),
            candidates@.len() == n,
            forall|j: int| 0 <= j < k ==> !present@[j],
        decreases n - k,
    {
        if present[k] {
            let p = candidates[k].clone();
            proof {
                assert(0 <= k < present@.len() && present@[k as int] && p@ == candidates@[
                    k as int
                ]@ && (forall|j: int| 0 <= j < k ==> !present@[j]));
            }
            return Some(p);
        }
        k = k + 1;
    }
    None
}

} // verus!
