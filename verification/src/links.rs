//! Detection of `http://` and `https://` links inside message text.
//!
//! Positions are counted in characters of the text.

use crate::text::{chars_of, display_width, is_control, is_whitespace, string_of};
use crate::text::{is_control_spec, is_whitespace_spec, unicode_str_width};
use vstd::prelude::*;

verus! {

/// A link found in a text: its URL and the character range `[start, end)` it occupies.
#[derive(Debug, Clone, PartialEq, Eq)]
pub struct LinkSpan {
    pub url: String,
    pub start: usize,
    pub end: usize,
}

/// Spec-level link: character range plus URL characters.
pub struct LinkModel {
    pub start: int,
    pub end: int,
    pub url: Seq<char>,
}

impl LinkSpan {
    pub open spec fn model(&self) -> LinkModel {
        LinkModel { start: self.start as int, end: self.end as int, url: self.url@ }
    }
}

/// `t[i..]` begins with `pattern`.
pub open spec fn starts_with_at(t: Seq<char>, i: int, pattern: Seq<char>) -> bool {
    0 <= i && i + pattern.len() <= t.len() && t.subrange(i, i + pattern.len()) == pattern
}

pub open spec fn https_pattern() -> Seq<char> {
    seq!['h', 't', 't', 'p', 's', ':', '/', '/']
}

pub open spec fn http_pattern() -> Seq<char> {
    seq!['h', 't', 't', 'p', ':', '/', '/']
}

/// A link may begin at `i`: `https://` or `http://` starts there.
pub open spec fn url_starts_at(t: Seq<char>, i: int) -> bool {
    starts_with_at(t, i, https_pattern()) || starts_with_at(t, i, http_pattern())
}

/// Characters that end the raw extent of a link.
pub open spec fn is_link_break(c: char) -> bool {
    is_whitespace_spec(c) || is_control_spec(c)
}

/// Sentence punctuation that is trimmed from the end of a link.
pub open spec fn is_trailing_punctuation(c: char) -> bool {
    c == '.' || c == ',' || c == ';' || c == ':' || c == '!' || c == '?' || c == ')' || c == ']'
        || c == '}' || c == '>' || c == '"' || c == '\''
}

/// The first index at or after `i` that holds a link break, or the text's length.
pub open spec fn raw_link_end(t: Seq<char>, i: int) -> int
    decreases t.len() - i,
{
    if i >= t.len() {
        t.len() as int
    } else if is_link_break(t[i]) {
        i
    } else {
        raw_link_end(t, i + 1)
    }
}

/// `end` with trailing punctuation in `t[start..end]` removed, never below `start`.
pub open spec fn trimmed_end(t: Seq<char>, start: int, end: int) -> int
    decreases end - start,
{
    if end > start && is_trailing_punctuation(t[end - 1]) {
        trimmed_end(t, start, end - 1)
    } else {
        end
    }
}

/// The links of `t` found by scanning from `i`, skipping starts below `covered`.
/// A link starts wherever `http://` or `https://` begins, runs to the next whitespace or
/// control character, and loses trailing sentence punctuation; empty results are dropped
/// and a found link covers the starts inside it.
pub open spec fn links_from(t: Seq<char>, i: int, covered: int) -> Seq<LinkModel>
    decreases t.len() - i,
{
    if i >= t.len() || i < 0 {
        Seq::empty()
    } else if i >= covered && url_starts_at(t, i) && trimmed_end(t, i, raw_link_end(t, i)) > i {
        let end = trimmed_end(t, i, raw_link_end(t, i));
        seq![LinkModel { start: i, end: end, url: t.subrange(i, end) }].add(
            links_from(t, i + 1, end),
        )
    } else {
        links_from(t, i + 1, covered)
    }
}

/// All links of `t`, in order of position.
pub open spec fn links_spec(t: Seq<char>) -> Seq<LinkModel> {
    links_from(t, 0, 0)
}

pub open spec fn models(links: Seq<LinkSpan>) -> Seq<LinkModel> {
    links.map_values(|l: LinkSpan| l.model())
}

proof fn lemma_raw_link_end_bounds(t: Seq<char>, i: int)
    requires
        0 <= i <= t.len(),
    ensures
        i <= raw_link_end(t, i) <= t.len(),
        forall|k: int| i <= k < raw_link_end(t, i) ==> !is_link_break(#[trigger] t[k]),
    decreases t.len() - i,
{
    if i < t.len() && !is_link_break(t[i]) {
        lemma_raw_link_end_bounds(t, i + 1);
    }
}

proof fn lemma_trimmed_end_bounds(t: Seq<char>, start: int, end: int)
    requires
        0 <= start <= end <= t.len(),
    ensures
        start <= trimmed_end(t, start, end) <= end,
        trimmed_end(t, start, end) > start ==> !is_trailing_punctuation(
            t[trimmed_end(t, start, end) - 1],
        ),
    decreases end - start,
{
    if end > start && is_trailing_punctuation(t[end - 1]) {
        lemma_trimmed_end_bounds(t, start, end - 1);
    }
}

fn matches_at(t: &Vec<char>, i: usize, pattern: &[char]) -> (b: bool)
    ensures
        b == starts_with_at(t@, i as int, pattern@),
{
    if i > t.len() || pattern.len() > t.len() - i {
        return false;
    }
    let mut k: usize = 0;
    while k < pattern.len()
        invariant
            i + pattern.len() <= t.len(),
            k <= pattern.len(),
            forall|j: int| 0 <= j < k ==> t@[i + j] == pattern@[j],
        decreases pattern.len() - k,
    {
        if t[i + k] != pattern[k] {
            assert(t@.subrange(i as int, i + pattern@.len())[k as int] != pattern@[k as int]);
            return false;
        }
        k += 1;
    }
    assert(t@.subrange(i as int, i + pattern@.len()) =~= pattern@);
    true
}

fn url_start_at(t: &Vec<char>, i: usize) -> (b: bool)
    ensures
        b == url_starts_at(t@, i as int),
{
    let https: [char; 8] = ['h', 't', 't', 'p', 's', ':', '/', '/'];
    let http: [char; 7] = ['h', 't', 't', 'p', ':', '/', '/'];
    assert(https@ == https_pattern());
    assert(http@ == http_pattern());
    matches_at(t, i, &https) || matches_at(t, i, &http)
}

fn find_raw_link_end(t: &Vec<char>, start: usize) -> (end: usize)
    requires
        start <= t.len(),
    ensures
        end == raw_link_end(t@, start as int),
{
    let mut k = start;
    while k < t.len()
        invariant
            start <= k <= t.len(),
            raw_link_end(t@, start as int) == raw_link_end(t@, k as int),
        decreases t.len() - k,
    {
        if is_whitespace(t[k]) || is_control(t[k]) {
            return k;
        }
        k += 1;
    }
    k
}

fn is_punctuation(c: char) -> (b: bool)
    ensures
        b == is_trailing_punctuation(c),
{
    c == '.' || c == ',' || c == ';' || c == ':' || c == '!' || c == '?' || c == ')' || c == ']'
        || c == '}' || c == '>' || c == '"' || c == '\''
}

/// Moves `end` back over trailing sentence punctuation of `text[start..end]`.
pub fn trim_url_end(text: &Vec<char>, start: usize, end: usize) -> (r: usize)
    requires
        start <= end <= text.len(),
    ensures
        r == trimmed_end(text@, start as int, end as int),
        start <= r <= end,
{
    proof {
        lemma_trimmed_end_bounds(text@, start as int, end as int);
    }
    let mut e = end;
    while e > start && is_punctuation(text[e - 1])
        invariant
            start <= e <= end <= text.len(),
            trimmed_end(text@, start as int, end as int) == trimmed_end(
                text@,
                start as int,
                e as int,
            ),
        decreases e - start,
    {
        e -= 1;
    }
    e
}

/// The links in `text`, in order of position.
pub fn links_in_text(text: &str) -> (links: Vec<LinkSpan>)
    ensures
        models(links@) == links_spec(text@),
        forall|k: int| #![trigger links@[k]] 0 <= k < links@.len() ==> 0 < links@[k].end <= text@.len() && {
            let c = text@[links@[k].end - 1];
            !(c == '.' || c == ',' || c == ';' || c == ':' || c == '!' || c == '?' || c == ')' || c == ']'
                || c == '}' || c == '>' || c == '"' || c == '\'')
        },
{
    let t = chars_of(text);
    let links = links_in_chars(&t);
    proof {
        lemma_links_stop_before_sentence_punctuation(text@);
        lemma_found_links_well_formed(text@);
        assert forall|k: int| #![trigger links@[k]] 0 <= k < links@.len() implies 0 < links@[k].end <= text@.len()
            && {
            let c = text@[links@[k].end - 1];
            !(c == '.' || c == ',' || c == ';' || c == ':' || c == '!' || c == '?' || c == ')' || c == ']'
                || c == '}' || c == '>' || c == '"' || c == '\'')
        } by {
            assert(models(links@)[k] == links@[k].model());
            assert(links_spec(text@)[k] == links@[k].model());
            assert(link_well_formed(text@, links_spec(text@)[k]));
        }
    }
    links
}

/// The links in a text given as characters.
pub fn links_in_chars(t: &Vec<char>) -> (links: Vec<LinkSpan>)
    ensures
        models(links@) == links_spec(t@),
{
    let mut links: Vec<LinkSpan> = Vec::new();
    let mut covered: usize = 0;
    let mut i: usize = 0;
    while i < t.len()
        invariant
            i <= t.len(),
            covered <= t.len(),
            links_spec(t@) == models(links@) + links_from(t@, i as int, covered as int),
        decreases t.len() - i,
    {
        let ghost old_links = links@;
        if i >= covered && url_start_at(t, i) {
            let raw_end = find_raw_link_end(t, i);
            proof {
                lemma_raw_link_end_bounds(t@, i as int);
            }
            let end = trim_url_end(t, i, raw_end);
            if end > i {
                let url = string_of(slice_range(t, i, end).as_slice());
                let link = LinkSpan { url, start: i, end };
                links.push(link);
                assert(models(links@) =~= models(old_links).push(link.model()));
                assert(links_from(t@, i as int, covered as int) == seq![link.model()].add(
                    links_from(t@, i + 1, end as int),
                ));
                assert(models(links@) + links_from(t@, i + 1, end as int) =~= models(old_links)
                    + links_from(t@, i as int, covered as int));
                covered = end;
            }
        }
        i += 1;
    }
    assert(models(links@) + links_from(t@, i as int, covered as int) =~= models(links@));
    links
}

/// The characters `t[start..end]` as a new vector.
pub fn slice_range(t: &Vec<char>, start: usize, end: usize) -> (r: Vec<char>)
    requires
        start <= end <= t.len(),
    ensures
        r@ == t@.subrange(start as int, end as int),
{
    let mut r: Vec<char> = Vec::new();
    let mut k = start;
    while k < end
        invariant
            start <= k <= end <= t.len(),
            r@ == t@.subrange(start as int, k as int),
        decreases end - k,
    {
        r.push(t[k]);
        k += 1;
        assert(r@ =~= t@.subrange(start as int, k as int));
    }
    r
}

/// The URL of the first link in `text`, if any.
pub fn first_url(text: &str) -> (url: Option<String>)
    ensures
        links_spec(text@).len() == 0 ==> url is None,
        links_spec(text@).len() > 0 ==> url is Some && url->0@ == links_spec(text@)[0].url,
{
    let links = links_in_text(text);
    if links.len() == 0 {
        None
    } else {
        assert(models(links@)[0] == links@[0].model());
        Some(links[0].url.clone())
    }
}


/// Display width of `t[from..to]`.
pub open spec fn width_of(t: Seq<char>, from: int, to: int) -> int {
    unicode_str_width(t.subrange(from, to)) as int
}

/// Whether `column` falls on the display columns that `link` occupies in `t`.
pub open spec fn link_covers_column(t: Seq<char>, link: LinkModel, column: int) -> bool {
    width_of(t, 0, link.start) <= column && column < width_of(t, 0, link.end)
}

/// The URL of the first of `links[k..]` that covers `column`.
pub open spec fn first_link_at_column(t: Seq<char>, links: Seq<LinkModel>, column: int, k: int) -> Option<Seq<char>>
    decreases links.len() - k,
{
    if k >= links.len() || k < 0 {
        None
    } else if link_covers_column(t, links[k], column) {
        Some(links[k].url)
    } else {
        first_link_at_column(t, links, column, k + 1)
    }
}

/// The URL of the link drawn at display column `column` of a one-line `text`.
pub fn link_at_display_column(text: &str, column: usize) -> (r: Option<String>)
    ensures
        match r {
            Some(u) => first_link_at_column(text@, links_spec(text@), column as int, 0) == Some(u@),
            None => first_link_at_column(text@, links_spec(text@), column as int, 0) is None,
        },
{
    let t = chars_of(text);
    let links = links_in_chars(&t);
    proof {
        lemma_links_from_well_formed(t@, 0, 0);
    }
    let mut k: usize = 0;
    while k < links.len()
        invariant
            k <= links@.len(),
            models(links@) == links_spec(t@),
            t@ == text@,
            forall|j: int| 0 <= j < links_spec(t@).len() ==> {
                let m = #[trigger] links_spec(t@)[j];
                &&& 0 <= m.start < m.end <= t@.len()
                &&& m.url == t@.subrange(m.start, m.end)
            },
            first_link_at_column(t@, links_spec(t@), column as int, 0) == first_link_at_column(
                t@,
                links_spec(t@),
                column as int,
                k as int,
            ),
        decreases links.len() - k,
    {
        let link = &links[k];
        assert(models(links@)[k as int] == link.model());
        let start_column = display_width(slice_range(&t, 0, link.start).as_slice());
        let end_column = display_width(slice_range(&t, 0, link.end).as_slice());
        if column >= start_column && column < end_column {
            return Some(link.url.clone());
        }
        k += 1;
    }
    None
}

/// A link found in `t` is well formed: a non-empty range of `t` whose characters are the
/// URL, which begins with `http://` or `https://`, holds no whitespace or control
/// character and does not end in sentence punctuation.
pub open spec fn link_well_formed(t: Seq<char>, m: LinkModel) -> bool {
    &&& 0 <= m.start < m.end <= t.len()
    &&& m.url == t.subrange(m.start, m.end)
    &&& url_starts_at(m.url, 0)
    &&& forall|j: int| m.start <= j < m.end ==> !is_link_break(#[trigger] t[j])
    &&& !is_trailing_punctuation(t[m.end - 1])
}

proof fn lemma_raw_end_past(t: Seq<char>, i: int, k: int)
    requires
        0 <= i <= k <= t.len(),
        forall|j: int| i <= j < k ==> !is_link_break(#[trigger] t[j]),
    ensures
        raw_link_end(t, i) >= k,
    decreases k - i,
{
    lemma_raw_link_end_bounds(t, i);
    if i < k {
        assert(!is_link_break(t[i]));
        lemma_raw_end_past(t, i + 1, k);
    }
}

proof fn lemma_trimmed_end_past(t: Seq<char>, s: int, e: int, k: int)
    requires
        0 <= s < k <= e <= t.len(),
        !is_trailing_punctuation(t[k - 1]),
    ensures
        trimmed_end(t, s, e) >= k,
    decreases e - s,
{
    if e > k && is_trailing_punctuation(t[e - 1]) {
        lemma_trimmed_end_past(t, s, e - 1, k);
    }
}

/// The scheme of a link at `i` is kept whole by the scan.
proof fn lemma_scheme_kept(t: Seq<char>, i: int)
    requires
        0 <= i < t.len(),
        url_starts_at(t, i),
    ensures
        url_starts_at(t.subrange(i, trimmed_end(t, i, raw_link_end(t, i))), 0),
        trimmed_end(t, i, raw_link_end(t, i)) > i,
{
    let p = if starts_with_at(t, i, https_pattern()) { https_pattern() } else { http_pattern() };
    let k = i + p.len();
    assert(t.subrange(i, k) == p);
    assert forall|j: int| i <= j < k implies !is_link_break(#[trigger] t[j]) by {
        assert(t[j] == p[j - i]);
    }
    lemma_raw_end_past(t, i, k);
    lemma_raw_link_end_bounds(t, i);
    assert(t[k - 1] == p[p.len() - 1]);
    lemma_trimmed_end_past(t, i, raw_link_end(t, i), k);
    lemma_trimmed_end_bounds(t, i, raw_link_end(t, i));
    let e = trimmed_end(t, i, raw_link_end(t, i));
    let url = t.subrange(i, e);
    assert(url.subrange(0, p.len() as int) =~= p);
}

pub(crate) proof fn lemma_links_from_well_formed(t: Seq<char>, i: int, covered: int)
    requires
        0 <= i,
    ensures
        forall|k: int| 0 <= k < links_from(t, i, covered).len() ==> {
            let m = #[trigger] links_from(t, i, covered)[k];
            &&& link_well_formed(t, m)
            &&& m.start >= i
            &&& m.start >= covered
        },
        forall|k: int, l: int| 0 <= k < l < links_from(t, i, covered).len() ==> #[trigger] links_from(t, i, covered)[k].end <= #[trigger] links_from(t, i, covered)[l].start,
    decreases t.len() - i,
{
    if i < t.len() {
        if i >= covered && url_starts_at(t, i) && trimmed_end(t, i, raw_link_end(t, i)) > i {
            let end = trimmed_end(t, i, raw_link_end(t, i));
            lemma_raw_link_end_bounds(t, i);
            lemma_trimmed_end_bounds(t, i, raw_link_end(t, i));
            lemma_scheme_kept(t, i);
            lemma_links_from_well_formed(t, i + 1, end);
            let rest = links_from(t, i + 1, end);
            let all = links_from(t, i, covered);
            assert(all == seq![LinkModel { start: i, end: end, url: t.subrange(i, end) }].add(rest));
            assert forall|k: int| 0 <= k < all.len() implies {
                let m = #[trigger] all[k];
                &&& link_well_formed(t, m)
                &&& m.start >= i
                &&& m.start >= covered
            } by {
                if k > 0 {
                    assert(all[k] == rest[k - 1]);
                }
            }
            assert forall|k: int, l: int| 0 <= k < l < all.len() implies #[trigger] all[k].end <= #[trigger] all[l].start by {
                assert(all[l] == rest[l - 1]);
                if k > 0 {
                    assert(all[k] == rest[k - 1]);
                }
            }
        } else {
            lemma_links_from_well_formed(t, i + 1, covered);
            assert(links_from(t, i, covered) == links_from(t, i + 1, covered));
        }
    } else {
        assert(links_from(t, i, covered).len() == 0);
    }
}

/// Every link that `links_in_text` finds is well formed (see `link_well_formed`), and the
/// links come in order of position without overlapping.
pub proof fn lemma_found_links_well_formed(t: Seq<char>)
    ensures
        forall|k: int| 0 <= k < links_spec(t).len() ==> link_well_formed(t, #[trigger] links_spec(t)[k]),
        forall|k: int, l: int| 0 <= k < l < links_spec(t).len() ==> #[trigger] links_spec(t)[k].end <= #[trigger] links_spec(t)[l].start,
{
    lemma_links_from_well_formed(t, 0, 0);
}

proof fn lemma_trimmed_tail(t: Seq<char>, start: int, end: int)
    requires
        0 <= start <= end <= t.len(),
    ensures
        forall|j: int| trimmed_end(t, start, end) <= j < end ==> is_trailing_punctuation(#[trigger] t[j]),
    decreases end - start,
{
    if end > start && is_trailing_punctuation(t[end - 1]) {
        lemma_trimmed_tail(t, start, end - 1);
    }
}

proof fn lemma_raw_end_is_break(t: Seq<char>, i: int)
    requires
        0 <= i <= t.len(),
    ensures
        raw_link_end(t, i) < t.len() ==> is_link_break(t[raw_link_end(t, i)]),
    decreases t.len() - i,
{
    if i < t.len() && !is_link_break(t[i]) {
        lemma_raw_end_is_break(t, i + 1);
    }
}

proof fn lemma_links_from_ends(t: Seq<char>, i: int, covered: int)
    requires
        0 <= i,
    ensures
        forall|k: int| #![trigger links_from(t, i, covered)[k]] 0 <= k < links_from(t, i, covered).len() ==> {
            let m = links_from(t, i, covered)[k];
            &&& 0 <= m.start < t.len()
            &&& m.end == trimmed_end(t, m.start, raw_link_end(t, m.start))
        },
    decreases t.len() - i,
{
    if i < t.len() {
        if i >= covered && url_starts_at(t, i) && trimmed_end(t, i, raw_link_end(t, i)) > i {
            let end = trimmed_end(t, i, raw_link_end(t, i));
            lemma_links_from_ends(t, i + 1, end);
            let rest = links_from(t, i + 1, end);
            let all = links_from(t, i, covered);
            assert(all == seq![LinkModel { start: i, end: end, url: t.subrange(i, end) }].add(rest));
            assert forall|k: int| #![trigger all[k]] 0 <= k < all.len() implies {
                &&& 0 <= all[k].start < t.len()
                &&& all[k].end == trimmed_end(t, all[k].start, raw_link_end(t, all[k].start))
            } by {
                if k > 0 {
                    assert(all[k] == rest[k - 1]);
                }
            }
        } else {
            lemma_links_from_ends(t, i + 1, covered);
            assert(links_from(t, i, covered) == links_from(t, i + 1, covered));
        }
    }
}

/// Links stop before sentence punctuation and only there or at whitespace: a found link
/// never ends in `.` `,` `;` `:` `!` `?` `)` `]` `}` `>` `"` or `'`, and every character
/// after it up to the next whitespace or control character is one of those.
pub proof fn lemma_links_stop_before_sentence_punctuation(t: Seq<char>)
    ensures
        forall|k: int| #![trigger links_spec(t)[k]] 0 <= k < links_spec(t).len() ==> {
            let c = t[links_spec(t)[k].end - 1];
            !(c == '.' || c == ',' || c == ';' || c == ':' || c == '!' || c == '?' || c == ')' || c == ']'
                || c == '}' || c == '>' || c == '"' || c == '\'')
        },
        forall|k: int, j: int| #![trigger links_spec(t)[k], t[j]] 0 <= k < links_spec(t).len() && links_spec(t)[k].end
            <= j < t.len() && (forall|q: int| #![trigger t[q]] links_spec(t)[k].end <= q <= j ==> !is_whitespace_spec(t[q])
            && !is_control_spec(t[q])) ==> {
            let c = t[j];
            c == '.' || c == ',' || c == ';' || c == ':' || c == '!' || c == '?' || c == ')' || c == ']' || c == '}'
                || c == '>' || c == '"' || c == '\''
        },
{
    let links = links_spec(t);
    lemma_found_links_well_formed(t);
    lemma_links_from_ends(t, 0, 0);
    assert(links == links_from(t, 0, 0));
    assert forall|k: int| #![trigger links[k]] 0 <= k < links.len() implies {
        let c = t[links[k].end - 1];
        !(c == '.' || c == ',' || c == ';' || c == ':' || c == '!' || c == '?' || c == ')' || c == ']' || c == '}'
            || c == '>' || c == '"' || c == '\'')
    } by {
        assert(link_well_formed(t, links[k]));
    }
    assert forall|k: int, j: int| #![trigger links[k], t[j]] 0 <= k < links.len() && links[k].end <= j < t.len() && (
    forall|q: int| #![trigger t[q]] links[k].end <= q <= j ==> !is_whitespace_spec(t[q]) && !is_control_spec(t[q])) implies {
        let c = t[j];
        c == '.' || c == ',' || c == ';' || c == ':' || c == '!' || c == '?' || c == ')' || c == ']' || c == '}' || c
            == '>' || c == '"' || c == '\''
    } by {
        let m = links[k];
        let raw = raw_link_end(t, m.start);
        lemma_raw_link_end_bounds(t, m.start);
        lemma_raw_end_is_break(t, m.start);
        lemma_trimmed_tail(t, m.start, raw);
        if j >= raw {
            assert(m.end <= raw <= j);
            assert(!is_whitespace_spec(t[raw]) && !is_control_spec(t[raw]));
        }
        assert(is_trailing_punctuation(t[j]));
    }
}

/// The link `m` covers position `p` of the text.
pub open spec fn link_covers(m: LinkModel, p: int) -> bool {
    m.start <= p < m.end
}

proof fn lemma_links_from_complete(t: Seq<char>, j: int, c: int, p: int)
    requires
        0 <= j <= p < t.len(),
        c <= p,
        url_starts_at(t, p),
        forall|k: int| #![trigger links_from(t, j, c)[k]] 0 <= k < links_from(t, j, c).len() ==> !link_covers(links_from(t, j, c)[k], p),
    ensures
        exists|k: int| #![trigger links_from(t, j, c)[k]] 0 <= k < links_from(t, j, c).len() && links_from(t, j, c)[k].start == p,
    decreases t.len() - j,
{
    let all = links_from(t, j, c);
    if j >= c && url_starts_at(t, j) && trimmed_end(t, j, raw_link_end(t, j)) > j {
        let end = trimmed_end(t, j, raw_link_end(t, j));
        let rest = links_from(t, j + 1, end);
        assert(all == seq![LinkModel { start: j, end: end, url: t.subrange(j, end) }].add(rest));
        if p == j {
            assert(all[0].start == p);
        } else {
            assert(all[0].start == j && all[0].end == end);
            assert(!link_covers(all[0], p));
            assert forall|k: int| #![trigger rest[k]] 0 <= k < rest.len() implies !link_covers(rest[k], p) by {
                assert(rest[k] == all[k + 1]);
            }
            lemma_links_from_complete(t, j + 1, end, p);
            let k = choose|k: int| #![trigger rest[k]] 0 <= k < rest.len() && rest[k].start == p;
            assert(all[k + 1] == rest[k]);
        }
    } else {
        if p == j {
            lemma_scheme_kept(t, j);
        }
        assert(all == links_from(t, j + 1, c));
        lemma_links_from_complete(t, j + 1, c, p);
    }
}

/// No link is missed: every place where `http://` or `https://` begins lies inside a
/// found link, and when no link starting before it reaches it, a found link starts there.
pub proof fn lemma_every_link_start_is_found(t: Seq<char>, p: int)
    requires
        0 <= p < t.len(),
        url_starts_at(t, p),
    ensures
        exists|k: int| #![trigger links_spec(t)[k]] 0 <= k < links_spec(t).len() && link_covers(links_spec(t)[k], p),
        (forall|k: int| #![trigger links_spec(t)[k]] 0 <= k < links_spec(t).len() && links_spec(t)[k].start < p
            ==> !link_covers(links_spec(t)[k], p)) ==> exists|k: int| #![trigger links_spec(t)[k]] 0 <= k
            < links_spec(t).len() && links_spec(t)[k].start == p,
{
    let links = links_spec(t);
    assert(links == links_from(t, 0, 0));
    lemma_found_links_well_formed(t);
    if !(exists|k: int| #![trigger links[k]] 0 <= k < links.len() && link_covers(links[k], p)) {
        lemma_links_from_complete(t, 0, 0, p);
        let k = choose|k: int| #![trigger links[k]] 0 <= k < links.len() && links[k].start == p;
        assert(link_well_formed(t, links[k]));
        assert(link_covers(links[k], p));
    }
    let k = choose|k: int| #![trigger links[k]] 0 <= k < links.len() && link_covers(links[k], p);
    assert(links[k].start <= p);
}

} // verus!
