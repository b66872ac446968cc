//! Paths as `/`-separated strings.
//!
//! A path is a string; `/` separates components and a leading `/` makes it absolute.
//! As in `std::path` on Unix, a path reads as its components: the root, a leading `.`,
//! then the names between separators, where empty names (repeated or trailing
//! separators) and `.` are skipped. `join`, `parent`, `file_name`, `file_stem` and
//! `with_file_name` follow `std::path` on every string; `strip_prefix` compares the
//! strings and follows `std::path` on paths without empty or `.` components.

use crate::text::{chars_of, string_of};
use vstd::prelude::*;

verus! {

pub open spec fn is_absolute_spec(p: Seq<char>) -> bool {
    p.len() > 0 && p[0] == '/'
}

/// `rel` appended to `base` with one separator between them; an absolute `rel` or an
/// empty `base` gives `rel` itself.
pub open spec fn join_spec(base: Seq<char>, rel: Seq<char>) -> Seq<char> {
    if is_absolute_spec(rel) || base.len() == 0 {
        rel
    } else if base[base.len() - 1] == '/' {
        base + rel
    } else {
        base + seq!['/'] + rel
    }
}

/// The path starts at the root: it begins with `/`.
pub open spec fn has_root(p: Seq<char>) -> bool {
    p.len() > 0 && p[0] == '/'
}

/// The path begins with a `.` component (only without a root).
pub open spec fn has_cur_dir(p: Seq<char>) -> bool {
    !has_root(p) && p.len() > 0 && p[0] == '.' && (p.len() == 1 || p[1] == '/')
}

/// Where the names of the path begin: after the root or the leading `.`.
pub open spec fn body_start(p: Seq<char>) -> int {
    if has_root(p) || has_cur_dir(p) {
        1
    } else {
        0
    }
}

/// Index of the last `/` in `p[lo..end]`, or -1.
pub open spec fn last_sep_from(p: Seq<char>, lo: int, end: int) -> int
    decreases end - lo,
{
    if end <= lo {
        -1
    } else if p[end - 1] == '/' {
        end - 1
    } else {
        last_sep_from(p, lo, end - 1)
    }
}

/// Where the last name of `p[lo..end]` begins: after its last separator, else at `lo`.
pub open spec fn name_start(p: Seq<char>, lo: int, end: int) -> int {
    let s = last_sep_from(p, lo, end);
    if s >= 0 {
        s + 1
    } else {
        lo
    }
}

/// Where `p[..end]` ends once its last name and the separator before it are dropped,
/// never below `lo`.
pub open spec fn before_name(p: Seq<char>, lo: int, end: int) -> int {
    let s = last_sep_from(p, lo, end);
    if s >= 0 {
        s
    } else {
        lo
    }
}

/// A name that is skipped: empty, or `.`.
pub open spec fn skipped_name(name: Seq<char>) -> bool {
    name.len() == 0 || name == seq!['.']
}

/// The end of `p[..end]` once trailing skipped names (and their separators) are dropped,
/// never below `lo`.
pub open spec fn trimmed_path_end(p: Seq<char>, lo: int, end: int) -> int
    decreases end - lo,
{
    if end <= lo || end > p.len() || lo < 0 {
        end
    } else if skipped_name(p.subrange(name_start(p, lo, end), end)) {
        proof {
            lemma_last_sep_from_range(p, lo, end);
        }
        trimmed_path_end(p, lo, before_name(p, lo, end))
    } else {
        end
    }
}

/// The position `(start, end)` of the last name of the path, if it has one.
pub open spec fn last_name(p: Seq<char>) -> Option<(int, int)> {
    let lo = body_start(p);
    let e = trimmed_path_end(p, lo, p.len() as int);
    if e <= lo {
        None
    } else {
        Some((name_start(p, lo, e), e))
    }
}

/// The path without its last component: the path up to its last name with trailing
/// separators and `.` names dropped; the empty path when only a leading `.` is left to
/// drop; none for the empty path and for the root.
pub open spec fn parent_spec(p: Seq<char>) -> Option<Seq<char>> {
    match last_name(p) {
        Some((a, b)) => Some(p.subrange(0, trimmed_path_end(p, body_start(p), before_name(p, body_start(p), b)))),
        None => if has_cur_dir(p) {
            Some(Seq::empty())
        } else {
            None
        },
    }
}

/// The last name of the path, none when there is none or it is `..`.
pub open spec fn file_name_spec(p: Seq<char>) -> Option<Seq<char>> {
    match last_name(p) {
        Some((a, b)) => if p.subrange(a, b) == seq!['.', '.'] {
            None
        } else {
            Some(p.subrange(a, b))
        },
        None => None,
    }
}

/// Index of the last `.` in `s[..end]`, or -1.
pub open spec fn last_dot_before(s: Seq<char>, end: int) -> int
    decreases end,
{
    if end <= 0 {
        -1
    } else if s[end - 1] == '.' {
        end - 1
    } else {
        last_dot_before(s, end - 1)
    }
}

/// A file name without its extension: names without a `.` past the first character keep
/// all of it; otherwise the part before the last `.`.
pub open spec fn stem_of_name(name: Seq<char>) -> Seq<char> {
    let d = last_dot_before(name, name.len() as int);
    if d <= 0 {
        name
    } else {
        name.subrange(0, d)
    }
}

pub open spec fn file_stem_spec(p: Seq<char>) -> Option<Seq<char>> {
    match file_name_spec(p) {
        Some(name) => Some(stem_of_name(name)),
        None => None,
    }
}

/// `p` with its last component replaced by `name` (or `name` appended when `p` has no
/// file name).
pub open spec fn with_file_name_spec(p: Seq<char>, name: Seq<char>) -> Seq<char> {
    match (file_name_spec(p), parent_spec(p)) {
        (Some(_), Some(parent)) => join_spec(parent, name),
        _ => join_spec(p, name),
    }
}

/// `p` relative to `base` when `base` is a leading run of whole components of `p`.
pub open spec fn strip_prefix_spec(p: Seq<char>, base: Seq<char>) -> Option<Seq<char>> {
    if base.len() <= p.len() && p.subrange(0, base.len() as int) == base {
        if base.len() == p.len() {
            Some(Seq::empty())
        } else if p[base.len() as int] == '/' {
            Some(p.subrange(base.len() as int + 1, p.len() as int))
        } else if base.len() > 0 && base[base.len() - 1] == '/' {
            Some(p.subrange(base.len() as int, p.len() as int))
        } else {
            None
        }
    } else {
        None
    }
}

pub fn is_absolute(p: &str) -> (b: bool)
    ensures
        b == is_absolute_spec(p@),
{
    let v = chars_of(p);
    v.len() > 0 && v[0] == '/'
}

fn concat(a: &Vec<char>, b: &Vec<char>) -> (r: Vec<char>)
    ensures
        r@ == a@ + b@,
{
    let mut r = a.clone();
    let mut k: usize = 0;
    while k < b.len()
        invariant
            k <= b.len(),
            r@ == a@ + b@.subrange(0, k as int),
        decreases b.len() - k,
    {
        r.push(b[k]);
        k += 1;
        assert(r@ =~= a@ + b@.subrange(0, k as int));
    }
    assert(b@.subrange(0, b@.len() as int) =~= b@);
    r
}

pub fn join_chars(base: &Vec<char>, rel: &Vec<char>) -> (r: Vec<char>)
    ensures
        r@ == join_spec(base@, rel@),
{
    if (rel.len() > 0 && rel[0] == '/') || base.len() == 0 {
        rel.clone()
    } else if base[base.len() - 1] == '/' {
        concat(base, rel)
    } else {
        let mut b = base.clone();
        b.push('/');
        let r = concat(&b, rel);
        assert(r@ =~= base@ + seq!['/'] + rel@);
        r
    }
}

/// `Path::join`.
pub fn join(base: &str, rel: &str) -> (r: String)
    ensures
        r@ == join_spec(base@, rel@),
{
    let r = join_chars(&chars_of(base), &chars_of(rel));
    string_of(r.as_slice())
}

pub fn sub_chars(p: &Vec<char>, start: usize, end: usize) -> (r: Vec<char>)
    requires
        start <= end <= p.len(),
    ensures
        r@ == p@.subrange(start as int, end as int),
{
    crate::links::slice_range(p, start, end)
}

pub proof fn lemma_last_sep_from_range(p: Seq<char>, lo: int, end: int)
    requires
        0 <= lo,
        end <= p.len(),
    ensures
        last_sep_from(p, lo, end) == -1 || (lo <= last_sep_from(p, lo, end) < end && p[last_sep_from(p, lo, end)]
            == '/'),
    decreases end - lo,
{
    if end > lo && p[end - 1] != '/' {
        lemma_last_sep_from_range(p, lo, end - 1);
    }
}

fn find_last_sep_from(p: &Vec<char>, lo: usize, end: usize) -> (k: Option<usize>)
    requires
        end <= p.len(),
    ensures
        match k {
            Some(k) => k as int == last_sep_from(p@, lo as int, end as int) && lo <= k < end,
            None => last_sep_from(p@, lo as int, end as int) == -1,
        },
{
    let mut e: usize = end;
    while e > lo
        invariant
            e <= end <= p.len(),
            last_sep_from(p@, lo as int, end as int) == last_sep_from(p@, lo as int, e as int),
        decreases e,
    {
        if p[e - 1] == '/' {
            return Some(e - 1);
        }
        e -= 1;
    }
    None
}

fn body_start_of(p: &Vec<char>) -> (r: usize)
    ensures
        r as int == body_start(p@),
        r <= p.len(),
{
    if p.len() > 0 && p[0] == '/' {
        1
    } else if p.len() > 0 && p[0] == '.' && (p.len() == 1 || p[1] == '/') {
        1
    } else {
        0
    }
}

fn trim_path_end(p: &Vec<char>, lo: usize, end: usize) -> (r: usize)
    requires
        lo <= end <= p.len(),
    ensures
        r as int == trimmed_path_end(p@, lo as int, end as int),
        lo <= r <= end,
{
    let mut e: usize = end;
    while e > lo
        invariant
            lo <= e <= end <= p.len(),
            trimmed_path_end(p@, lo as int, end as int) == trimmed_path_end(p@, lo as int, e as int),
        decreases e,
    {
        let (start, before) = match find_last_sep_from(p, lo, e) {
            Some(k) => (k + 1, k),
            None => (lo, lo),
        };
        assert(lo <= start <= e);
        let len = e - start;
        let skipped = len == 0 || (len == 1 && p[start] == '.');
        assert(skipped == skipped_name(p@.subrange(start as int, e as int))) by {
            if len == 1 {
                assert(p@.subrange(start as int, e as int) =~= seq![p@[start as int]]);
            }
            if p@.subrange(start as int, e as int) == seq!['.'] {
                assert(seq!['.'].len() == 1 && seq!['.'][0] == '.');
                assert(p@.subrange(start as int, e as int).len() == 1);
                assert(p@.subrange(start as int, e as int)[0] == p@[start as int]);
            }
        }
        if !skipped {
            return e;
        }
        e = before;
    }
    e
}

/// The position of the last name of the path (see `last_name`).
fn last_name_of(p: &Vec<char>) -> (r: Option<(usize, usize)>)
    ensures
        match r {
            Some((a, b)) => last_name(p@) == Some((a as int, b as int)) && a <= b <= p.len(),
            None => last_name(p@) is None,
        },
{
    let lo = body_start_of(p);
    let e = trim_path_end(p, lo, p.len());
    if e <= lo {
        return None;
    }
    let a = match find_last_sep_from(p, lo, e) {
        Some(k) => k + 1,
        None => lo,
    };
    Some((a, e))
}

pub fn parent_chars(p: &Vec<char>) -> (r: Option<Vec<char>>)
    ensures
        match r {
            Some(v) => parent_spec(p@) == Some(v@),
            None => parent_spec(p@) is None,
        },
{
    match last_name_of(p) {
        Some((_, b)) => {
            let lo = body_start_of(p);
            let before = match find_last_sep_from(p, lo, b) {
                Some(k) => k,
                None => lo,
            };
            let end = trim_path_end(p, lo, before);
            Some(sub_chars(p, 0, end))
        },
        None => {
            if p.len() > 0 && p[0] == '.' && (p.len() == 1 || p[1] == '/') {
                Some(Vec::new())
            } else {
                None
            }
        },
    }
}

/// `Path::parent`.
pub fn parent(p: &str) -> (r: Option<String>)
    ensures
        match r {
            Some(s) => parent_spec(p@) == Some(s@),
            None => parent_spec(p@) is None,
        },
{
    let v = chars_of(p);
    match parent_chars(&v) {
        Some(c) => Some(string_of(c.as_slice())),
        None => None,
    }
}

pub fn file_name_chars(p: &Vec<char>) -> (r: Option<Vec<char>>)
    ensures
        match r {
            Some(v) => file_name_spec(p@) == Some(v@),
            None => file_name_spec(p@) is None,
        },
{
    match last_name_of(p) {
        Some((a, b)) => {
            let name = sub_chars(p, a, b);
            if name.len() == 2 && name[0] == '.' && name[1] == '.' {
                assert(name@ =~= seq!['.', '.']);
                None
            } else {
                assert(name@ != seq!['.', '.']) by {
                    if name@ == seq!['.', '.'] {
                        assert(name@.len() == 2 && name@[0] == '.' && name@[1] == '.');
                    }
                }
                Some(name)
            }
        },
        None => None,
    }
}

/// `Path::file_name`.
pub fn file_name(p: &str) -> (r: Option<String>)
    ensures
        match r {
            Some(s) => file_name_spec(p@) == Some(s@),
            None => file_name_spec(p@) is None,
        },
{
    match file_name_chars(&chars_of(p)) {
        Some(v) => Some(string_of(v.as_slice())),
        None => None,
    }
}

fn find_last_dot(s: &Vec<char>) -> (k: Option<usize>)
    ensures
        match k {
            Some(k) => k == last_dot_before(s@, s@.len() as int) && k < s.len(),
            None => last_dot_before(s@, s@.len() as int) == -1,
        },
{
    let mut end: usize = s.len();
    while end > 0
        invariant
            end <= s.len(),
            last_dot_before(s@, s@.len() as int) == last_dot_before(s@, end as int),
        decreases end,
    {
        if s[end - 1] == '.' {
            return Some(end - 1);
        }
        end -= 1;
    }
    None
}

pub fn file_stem_chars(p: &Vec<char>) -> (r: Option<Vec<char>>)
    ensures
        match r {
            Some(v) => file_stem_spec(p@) == Some(v@),
            None => file_stem_spec(p@) is None,
        },
{
    match file_name_chars(p) {
        None => None,
        Some(name) => match find_last_dot(&name) {
            None => Some(name),
            Some(d) => {
                if d == 0 {
                    Some(name)
                } else {
                    Some(sub_chars(&name, 0, d))
                }
            },
        },
    }
}

/// `Path::file_stem`.
pub fn file_stem(p: &str) -> (r: Option<String>)
    ensures
        match r {
            Some(s) => file_stem_spec(p@) == Some(s@),
            None => file_stem_spec(p@) is None,
        },
{
    match file_stem_chars(&chars_of(p)) {
        Some(v) => Some(string_of(v.as_slice())),
        None => None,
    }
}

/// `Path::with_file_name`.
pub fn with_file_name(p: &str, name: &str) -> (r: String)
    ensures
        r@ == with_file_name_spec(p@, name@),
{
    let pv = chars_of(p);
    let nv = chars_of(name);
    let r = match (file_name_chars(&pv), parent_chars(&pv)) {
        (Some(_), Some(parent)) => join_chars(&parent, &nv),
        _ => join_chars(&pv, &nv),
    };
    string_of(r.as_slice())
}

fn is_prefix(p: &Vec<char>, base: &Vec<char>) -> (b: bool)
    ensures
        b == (base@.len() <= p@.len() && p@.subrange(0, base@.len() as int) == base@),
{
    if base.len() > p.len() {
        return false;
    }
    let mut k: usize = 0;
    while k < base.len()
        invariant
            base.len() <= p.len(),
            k <= base.len(),
            forall|j: int| 0 <= j < k ==> p@[j] == base@[j],
        decreases base.len() - k,
    {
        if p[k] != base[k] {
            assert(p@.subrange(0, base@.len() as int)[k as int] != base@[k as int]);
            return false;
        }
        k += 1;
    }
    assert(p@.subrange(0, base@.len() as int) =~= base@);
    true
}

pub fn strip_prefix_chars(p: &Vec<char>, base: &Vec<char>) -> (r: Option<Vec<char>>)
    ensures
        match r {
            Some(v) => strip_prefix_spec(p@, base@) == Some(v@),
            None => strip_prefix_spec(p@, base@) is None,
        },
{
    if !is_prefix(p, base) {
        return None;
    }
    if base.len() == p.len() {
        Some(Vec::new())
    } else if p[base.len()] == '/' {
        Some(sub_chars(p, base.len() + 1, p.len()))
    } else if base.len() > 0 && base[base.len() - 1] == '/' {
        Some(sub_chars(p, base.len(), p.len()))
    } else {
        None
    }
}

/// `Path::strip_prefix`.
pub fn strip_prefix(p: &str, base: &str) -> (r: Option<String>)
    ensures
        match r {
            Some(s) => strip_prefix_spec(p@, base@) == Some(s@),
            None => strip_prefix_spec(p@, base@) is None,
        },
{
    match strip_prefix_chars(&chars_of(p), &chars_of(base)) {
        Some(v) => Some(string_of(v.as_slice())),
        None => None,
    }
}

} // verus!
