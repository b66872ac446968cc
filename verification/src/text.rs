//! Character-level text helpers shared by the other modules.

use unicode_width::UnicodeWidthChar;
use unicode_width::UnicodeWidthStr;
use vstd::prelude::*;

verus! {

/// The characters of `s`, in order.
pub fn chars_of(s: &str) -> (v: Vec<char>)
    ensures
        v@ == s@,
{
    let mut v: Vec<char> = Vec::new();
    for c in it: s.chars()
        invariant
            v@ == it.seq().take(it.index() as int),
    {
        v.push(c);
    }
    v
}

/// Collects characters into a `String` with `String::from_iter`; std documents that the
/// string holds exactly those characters in that order.
#[verifier::external_body]
pub fn string_of(chars: &[char]) -> (s: String)
    ensures
        s@ == chars@,
{
    String::from_iter(chars.iter())
}

/// `char::is_whitespace`: the Unicode `White_Space` property.
pub open spec fn is_whitespace_spec(c: char) -> bool {
    ||| ('\u{9}' <= c && c <= '\u{d}')
    ||| c == ' '
    ||| c == '\u{85}'
    ||| c == '\u{a0}'
    ||| c == '\u{1680}'
    ||| ('\u{2000}' <= c && c <= '\u{200a}')
    ||| c == '\u{2028}'
    ||| c == '\u{2029}'
    ||| c == '\u{202f}'
    ||| c == '\u{205f}'
    ||| c == '\u{3000}'
}

/// `char::is_control`: the Unicode general category `Cc`.
pub open spec fn is_control_spec(c: char) -> bool {
    c <= '\u{1f}' || ('\u{7f}' <= c && c <= '\u{9f}')
}

pub fn is_whitespace(c: char) -> (b: bool)
    ensures
        b == is_whitespace_spec(c),
{
    ('\u{9}' <= c && c <= '\u{d}') || c == ' ' || c == '\u{85}' || c == '\u{a0}' || c
        == '\u{1680}' || ('\u{2000}' <= c && c <= '\u{200a}') || c == '\u{2028}' || c
        == '\u{2029}' || c == '\u{202f}' || c == '\u{205f}' || c == '\u{3000}'
}

pub fn is_control(c: char) -> (b: bool)
    ensures
        b == is_control_spec(c),
{
    c <= '\u{1f}' || ('\u{7f}' <= c && c <= '\u{9f}')
}

/// ASCII case folding of one character (`char::to_ascii_lowercase`).
pub open spec fn ascii_lower_spec(c: char) -> char {
    if 'A' <= c && c <= 'Z' {
        ((c as u32) + 32) as char
    } else {
        c
    }
}

pub fn ascii_lower(c: char) -> (r: char)
    ensures
        r == ascii_lower_spec(c),
{
    if 'A' <= c && c <= 'Z' {
        let code: u32 = (c as u32) + 32;
        assert(0x61 <= code && code <= 0x7a);
        char_from_ascii_code(code)
    } else {
        c
    }
}

fn char_from_ascii_code(code: u32) -> (c: char)
    requires
        0x61 <= code <= 0x7a,
    ensures
        c == code as char,
{
    let b: u8 = code as u8;
    b as char
}

/// Column width of one character as the `unicode-width` crate reports it
/// (`None` for control characters).
pub uninterp spec fn unicode_char_width(c: char) -> Option<usize>;

/// Column width of a whole string as the `unicode-width` crate reports it.
pub uninterp spec fn unicode_str_width(s: Seq<char>) -> usize;

/// Calls `UnicodeWidthChar::width`; the result depends on the character alone and is
/// named by `unicode_char_width`. For printable ASCII (U+0020 to U+007E) the crate's
/// source returns `Some(1)` and for U+0000 to U+001F it returns `None`; nothing is
/// stated of other characters.
#[verifier::external_body]
pub fn char_width(c: char) -> (w: Option<usize>)
    ensures
        w == unicode_char_width(c),
        (' ' <= c && c <= '~') ==> w == Some(1usize),
        c < ' ' ==> w is None,
{
    UnicodeWidthChar::width(c)
}

/// Calls `UnicodeWidthStr::width`; the result depends on the string alone and is named
/// by `unicode_str_width`. The crate's source folds the characters from the back, adding
/// 1 for each character up to U+00A0 other than a line break, so it returns 0 for the
/// empty string and the length for printable ASCII (U+0020 to U+007E) text.
#[verifier::external_body]
pub fn str_width(s: &str) -> (w: usize)
    ensures
        w == unicode_str_width(s@),
        s@.len() == 0 ==> w == 0,
        (forall|i: int| 0 <= i < s@.len() ==> ' ' <= #[trigger] s@[i] && s@[i] <= '~') ==> w == s@.len(),
{
    UnicodeWidthStr::width(s)
}

/// Display width of one character: its `unicode-width` width, 0 for control characters.
pub open spec fn char_display_width_spec(c: char) -> nat {
    match unicode_char_width(c) {
        Some(w) => w as nat,
        None => 0,
    }
}

pub fn char_display_width(c: char) -> (w: usize)
    ensures
        w == char_display_width_spec(c),
{
    match char_width(c) {
        Some(w) => w,
        None => 0,
    }
}

/// Display width of a string of characters.
pub fn display_width(chars: &[char]) -> (w: usize)
    ensures
        w == unicode_str_width(chars@),
{
    let s = string_of(chars);
    str_width(s.as_str())
}

/// `a` followed by `b`.
pub fn concat_chars(a: &Vec<char>, b: &[char]) -> (r: Vec<char>)
    ensures
        r@ == a@ + b@,
{
    let mut r = a.clone();
    let mut k: usize = 0;
    while k < b.len()
        invariant
            k <= b.len(),
            r@ == a@ + b@.subrange(0, k as int),
        decreases b.len() - k,
    {
        r.push(b[k]);
        k += 1;
        assert(r@ =~= a@ + b@.subrange(0, k as int));
    }
    assert(b@.subrange(0, b@.len() as int) =~= b@);
    r
}

/// `a` followed by `b`, as a new string.
pub fn concat(a: &str, b: &str) -> (r: String)
    ensures
        r@ == a@ + b@,
{
    let v = concat_chars(&chars_of(a), chars_of(b).as_slice());
    string_of(v.as_slice())
}

/// The decimal digit character for `d < 10`.
pub open spec fn digit_char(d: int) -> char {
    ((d + 48) as u32) as char
}

/// Decimal representation of a natural number, without leading zeros.
pub open spec fn nat_decimal(n: nat) -> Seq<char>
    decreases n,
{
    if n < 10 {
        seq![digit_char(n as int)]
    } else {
        nat_decimal(n / 10) + seq![digit_char((n % 10) as int)]
    }
}

/// Decimal representation of an integer, with a leading `-` when negative
/// (what `Display` prints for the integer types).
pub open spec fn int_decimal(n: int) -> Seq<char> {
    if n < 0 {
        seq!['-'] + nat_decimal((-n) as nat)
    } else {
        nat_decimal(n as nat)
    }
}

fn digit(d: u64) -> (c: char)
    requires
        d < 10,
    ensures
        c == digit_char(d as int),
{
    let b: u8 = (d as u8) + 48;
    b as char
}

fn u64_decimal(n: u64) -> (r: Vec<char>)
    ensures
        r@ == nat_decimal(n as nat),
    decreases n,
{
    if n < 10 {
        let mut r = Vec::new();
        r.push(digit(n));
        assert(r@ =~= seq![digit_char(n as int)]);
        r
    } else {
        let mut r = u64_decimal(n / 10);
        r.push(digit(n % 10));
        r
    }
}

/// Decimal text of an unsigned number.
pub fn u64_to_string(n: u64) -> (r: String)
    ensures
        r@ == nat_decimal(n as nat),
{
    string_of(u64_decimal(n).as_slice())
}

/// Whether two strings hold the same characters.
pub fn str_eq(a: &str, b: &str) -> (r: bool)
    ensures
        r == (a@ == b@),
{
    let av = chars_of(a);
    let bv = chars_of(b);
    chars_eq(&av, &bv)
}

/// Whether two character vectors are equal.
pub fn chars_eq(a: &Vec<char>, b: &Vec<char>) -> (r: bool)
    ensures
        r == (a@ == b@),
{
    if a.len() != b.len() {
        return false;
    }
    let mut k: usize = 0;
    while k < a.len()
        invariant
            a.len() == b.len(),
            k <= a.len(),
            forall|j: int| 0 <= j < k ==> a@[j] == b@[j],
        decreases a.len() - k,
    {
        if a[k] != b[k] {
            return false;
        }
        k += 1;
    }
    assert(a@ =~= b@);
    true
}

/// Whether `s` begins with `prefix`.
pub fn starts_with(s: &str, prefix: &str) -> (r: bool)
    ensures
        r == (prefix@.len() <= s@.len() && s@.subrange(0, prefix@.len() as int) == prefix@),
{
    let sv = chars_of(s);
    let pv = chars_of(prefix);
    if pv.len() > sv.len() {
        return false;
    }
    let head = crate::links::slice_range(&sv, 0, pv.len());
    chars_eq(&head, &pv)
}

/// Decimal text of `n` (what `format!("{n}")` prints).
pub fn i64_decimal(n: i64) -> (r: Vec<char>)
    ensures
        r@ == int_decimal(n as int),
{
    if n < 0 {
        let mag: u64 = if n == i64::MIN {
            9223372036854775808u64
        } else {
            (-n) as u64
        };
        let mut r = Vec::new();
        r.push('-');
        let d = u64_decimal(mag);
        let r2 = concat_chars(&r, d.as_slice());
        assert(r@ =~= seq!['-']);
        r2
    } else {
        u64_decimal(n as u64)
    }
}

/// Decimal text of `n` as a string.
pub fn i64_to_string(n: i64) -> (r: String)
    ensures
        r@ == int_decimal(n as int),
{
    string_of(i64_decimal(n).as_slice())
}

/// Index of the first character of `s` at or after `i` that is not whitespace.
pub open spec fn skip_ws_from(s: Seq<char>, i: int) -> int
    decreases s.len() - i,
{
    if i >= s.len() || i < 0 {
        s.len() as int
    } else if is_whitespace_spec(s[i]) {
        skip_ws_from(s, i + 1)
    } else {
        i
    }
}

/// One past the last non-whitespace character of `s[..end]`, or 0.
pub open spec fn trim_end_from(s: Seq<char>, end: int) -> int
    decreases end,
{
    if end <= 0 {
        0
    } else if is_whitespace_spec(s[end - 1]) {
        trim_end_from(s, end - 1)
    } else {
        end
    }
}

/// `str::trim`: `s` without leading and trailing whitespace.
pub open spec fn trim_spec(s: Seq<char>) -> Seq<char> {
    let start = skip_ws_from(s, 0);
    let end = trim_end_from(s, s.len() as int);
    if start >= end {
        Seq::empty()
    } else {
        s.subrange(start, end)
    }
}

proof fn lemma_skip_ws_bounds(s: Seq<char>, i: int)
    requires
        0 <= i <= s.len(),
    ensures
        i <= skip_ws_from(s, i) <= s.len(),
    decreases s.len() - i,
{
    if i < s.len() && is_whitespace_spec(s[i]) {
        lemma_skip_ws_bounds(s, i + 1);
    }
}

proof fn lemma_trim_end_bounds(s: Seq<char>, end: int)
    requires
        0 <= end <= s.len(),
    ensures
        0 <= trim_end_from(s, end) <= end,
    decreases end,
{
    if end > 0 && is_whitespace_spec(s[end - 1]) {
        lemma_trim_end_bounds(s, end - 1);
    }
}

/// The characters of `s` without leading and trailing whitespace.
pub fn trim_chars(s: &Vec<char>) -> (r: Vec<char>)
    ensures
        r@ == trim_spec(s@),
{
    let mut start: usize = 0;
    while start < s.len() && is_whitespace(s[start])
        invariant
            start <= s.len(),
            skip_ws_from(s@, 0) == skip_ws_from(s@, start as int),
        decreases s.len() - start,
    {
        start += 1;
    }
    let mut end: usize = s.len();
    while end > 0 && is_whitespace(s[end - 1])
        invariant
            end <= s.len(),
            trim_end_from(s@, s@.len() as int) == trim_end_from(s@, end as int),
        decreases end,
    {
        end -= 1;
    }
    if start >= end {
        Vec::new()
    } else {
        crate::links::slice_range(s, start, end)
    }
}

/// `str::trim` as a new string.
pub fn trim(s: &str) -> (r: String)
    ensures
        r@ == trim_spec(s@),
{
    string_of(trim_chars(&chars_of(s)).as_slice())
}

/// A run of ASCII digits.
pub open spec fn all_digits(s: Seq<char>) -> bool {
    forall|i: int| 0 <= i < s.len() ==> '0' <= #[trigger] s[i] && s[i] <= '9'
}

/// Value of a run of ASCII digits.
pub open spec fn digits_value(s: Seq<char>) -> int
    decreases s.len(),
{
    if s.len() == 0 {
        0
    } else {
        digits_value(s.drop_last()) * 10 + (s.last() as int - 48)
    }
}

/// What `str::parse::<i32>` accepts: an optional `+` or `-`, then at least one ASCII
/// digit, with the value inside `i32`.
pub open spec fn parse_i32_spec(s: Seq<char>) -> Option<i32> {
    let neg = s.len() > 0 && s[0] == '-';
    let digits = if s.len() > 0 && (s[0] == '-' || s[0] == '+') {
        s.drop_first()
    } else {
        s
    };
    if digits.len() == 0 || !all_digits(digits) {
        None
    } else {
        let v = if neg {
            -digits_value(digits)
        } else {
            digits_value(digits)
        };
        if i32::MIN <= v && v <= i32::MAX {
            Some(v as i32)
        } else {
            None
        }
    }
}

proof fn lemma_digits_value_nonneg(s: Seq<char>)
    requires
        all_digits(s),
    ensures
        digits_value(s) >= 0,
    decreases s.len(),
{
    if s.len() > 0 {
        assert(all_digits(s.drop_last()));
        lemma_digits_value_nonneg(s.drop_last());
        assert('0' <= s[s.len() - 1]);
    }
}

proof fn lemma_digits_value_monotone(s: Seq<char>)
    requires
        all_digits(s),
        s.len() > 0,
    ensures
        digits_value(s) >= digits_value(s.drop_last()),
{
    assert(all_digits(s.drop_last()));
    lemma_digits_value_nonneg(s.drop_last());
    assert('0' <= s[s.len() - 1]);
}

/// `str::parse::<i32>` on the characters of `s`.
pub fn parse_i32(s: &Vec<char>) -> (r: Option<i32>)
    ensures
        r == parse_i32_spec(s@),
{
    let neg = s.len() > 0 && s[0] == '-';
    let first: usize = if s.len() > 0 && (s[0] == '-' || s[0] == '+') {
        1
    } else {
        0
    };
    let ghost digits = if s@.len() > 0 && (s@[0] == '-' || s@[0] == '+') {
        s@.drop_first()
    } else {
        s@
    };
    assert(digits =~= s@.subrange(first as int, s@.len() as int));
    if first >= s.len() {
        return None;
    }
    let mut value: i64 = 0;
    let mut k: usize = first;
    while k < s.len()
        invariant
            first <= k <= s.len(),
            digits == s@.subrange(first as int, s@.len() as int),
            digits == (if s@.len() > 0 && (s@[0] == '-' || s@[0] == '+') {
                s@.drop_first()
            } else {
                s@
            }),
            digits.len() > 0,
            all_digits(s@.subrange(first as int, k as int)),
            value == digits_value(s@.subrange(first as int, k as int)),
            0 <= value <= 2147483648,
        decreases s.len() - k,
    {
        let c = s[k];
        if c < '0' || c > '9' {
            assert(digits[k - first] == c);
            assert(!all_digits(digits));
            return None;
        }
        let ghost prefix = s@.subrange(first as int, k + 1);
        assert(prefix.drop_last() =~= s@.subrange(first as int, k as int));
        assert(all_digits(prefix));
        let d: i64 = (c as u32 as i64) - 48;
        let next = value * 10 + d;
        assert(next == digits_value(prefix));
        if next > 2147483648 {
            // every longer digit run is at least as large
            proof {
                lemma_rest_too_large(s@, first as int, k + 1, 2147483648);
                assert(!all_digits(digits) || digits_value(digits) > 2147483648);
            }
            return None;
        }
        value = next;
        k += 1;
    }
    assert(s@.subrange(first as int, s@.len() as int) == digits);
    if neg {
        Some((-value) as i32)
    } else if value > 2147483647 {
        None
    } else {
        Some(value as i32)
    }
}

proof fn lemma_rest_too_large(s: Seq<char>, first: int, k: int, bound: int)
    requires
        0 <= first < k <= s.len(),
        all_digits(s.subrange(first, k)),
        digits_value(s.subrange(first, k)) > bound,
    ensures
        !all_digits(s.subrange(first, s.len() as int)) || digits_value(
            s.subrange(first, s.len() as int),
        ) > bound,
    decreases s.len() - k,
{
    if k < s.len() {
        let next = s.subrange(first, k + 1);
        assert(next.drop_last() =~= s.subrange(first, k));
        if all_digits(s.subrange(first, s.len() as int)) {
            assert(all_digits(next)) by {
                assert forall|i: int| 0 <= i < next.len() implies '0' <= #[trigger] next[i]
                    && next[i] <= '9' by {
                    assert(next[i] == s.subrange(first, s.len() as int)[i]);
                }
            }
            lemma_digits_value_monotone(next);
            lemma_rest_too_large(s, first, k + 1, bound);
        }
    }
}


/// What `str::parse::<i64>` accepts: an optional `+` or `-`, then at least one ASCII
/// digit, with the value inside `i64`.
pub open spec fn parse_i64_spec(s: Seq<char>) -> Option<i64> {
    let neg = s.len() > 0 && s[0] == '-';
    let digits = if s.len() > 0 && (s[0] == '-' || s[0] == '+') {
        s.drop_first()
    } else {
        s
    };
    if digits.len() == 0 || !all_digits(digits) {
        None
    } else {
        let v = if neg {
            -digits_value(digits)
        } else {
            digits_value(digits)
        };
        if i64::MIN <= v && v <= i64::MAX {
            Some(v as i64)
        } else {
            None
        }
    }
}

/// `str::parse::<i64>` on the characters of `s`.
pub fn parse_i64(s: &Vec<char>) -> (r: Option<i64>)
    ensures
        r == parse_i64_spec(s@),
{
    let neg = s.len() > 0 && s[0] == '-';
    let first: usize = if s.len() > 0 && (s[0] == '-' || s[0] == '+') {
        1
    } else {
        0
    };
    let ghost digits = if s@.len() > 0 && (s@[0] == '-' || s@[0] == '+') {
        s@.drop_first()
    } else {
        s@
    };
    assert(digits =~= s@.subrange(first as int, s@.len() as int));
    if first >= s.len() {
        return None;
    }
    let mut value: i128 = 0;
    let mut k: usize = first;
    while k < s.len()
        invariant
            first <= k <= s.len(),
            digits == s@.subrange(first as int, s@.len() as int),
            digits == (if s@.len() > 0 && (s@[0] == '-' || s@[0] == '+') {
                s@.drop_first()
            } else {
                s@
            }),
            digits.len() > 0,
            all_digits(s@.subrange(first as int, k as int)),
            value == digits_value(s@.subrange(first as int, k as int)),
            0 <= value <= 9223372036854775808,
        decreases s.len() - k,
    {
        let c = s[k];
        if c < '0' || c > '9' {
            assert(digits[k - first] == c);
            assert(!all_digits(digits));
            return None;
        }
        let ghost prefix = s@.subrange(first as int, k + 1);
        assert(prefix.drop_last() =~= s@.subrange(first as int, k as int));
        assert(all_digits(prefix));
        let d: i128 = (c as u32 as i128) - 48;
        let next = value * 10 + d;
        assert(next == digits_value(prefix));
        if next > 9223372036854775808 {
            // every longer digit run is at least as large
            proof {
                lemma_rest_too_large(s@, first as int, k + 1, 9223372036854775808);
                assert(!all_digits(digits) || digits_value(digits) > 9223372036854775808);
            }
            return None;
        }
        value = next;
        k += 1;
    }
    assert(s@.subrange(first as int, s@.len() as int) == digits);
    if neg {
        Some((-value) as i64)
    } else if value > 9223372036854775807 {
        None
    } else {
        Some(value as i64)
    }
}

/// Whether `needle` occurs in `hay` as a contiguous run (`str::contains`).
pub open spec fn contains_spec(hay: Seq<char>, needle: Seq<char>) -> bool {
    exists|i: int| 0 <= i && i + needle.len() <= hay.len() && #[trigger] hay.subrange(i, i + needle.len()) == needle
}

/// `str::contains` on character vectors.
pub fn contains_chars(hay: &Vec<char>, needle: &Vec<char>) -> (r: bool)
    ensures
        r == contains_spec(hay@, needle@),
{
    if needle.len() == 0 {
        assert(hay@.subrange(0int, 0int + needle@.len()) =~= needle@);
        return true;
    }
    let mut i: usize = 0;
    while i < hay.len()
        invariant
            needle@.len() > 0,
            i <= hay.len(),
            forall|j: int| 0 <= j < i && j + needle@.len() <= hay@.len() ==> #[trigger] hay@.subrange(j, j + needle@.len()) != needle@,
        decreases hay.len() - i,
    {
        if needle.len() <= hay.len() - i {
            let window = crate::links::slice_range(hay, i, i + needle.len());
            if chars_eq(&window, needle) {
                return true;
            }
        }
        i += 1;
    }
    assert forall|j: int| 0 <= j && j + needle@.len() <= hay@.len() implies #[trigger] hay@.subrange(j, j + needle@.len()) != needle@ by {
        assert(j < i);
    }
    false
}

/// The Unicode lowercase mapping of a string, as `str::to_lowercase` computes it.
pub uninterp spec fn lowercase_text(s: Seq<char>) -> Seq<char>;

/// Calls `str::to_lowercase`; its result depends on the characters alone and is named by
/// `lowercase_text`. On ASCII text the Unicode lowercase mapping is the ASCII one: `A` to
/// `Z` become `a` to `z` and every other character stays.
#[verifier::external_body]
pub(crate) fn to_lowercase(s: &str) -> (r: String)
    ensures
        r@ == lowercase_text(s@),
        (forall|i: int| 0 <= i < s@.len() ==> (#[trigger] s@[i] as u32) < 128) ==> r@ == s@.map_values(
            |c: char| ascii_lower_spec(c),
        ),
{
    s.to_lowercase()
}

/// How `Debug` prints a string: quoted, with escapes.
pub uninterp spec fn debug_text(s: Seq<char>) -> Seq<char>;

/// `format!("{s:?}")`; the result depends on the characters alone and is named by
/// `debug_text`. Printable ASCII characters other than `"` and `\` are printed as they
/// are, so text made of them comes back between double quotes unchanged.
#[verifier::external_body]
pub(crate) fn debug_quoted(s: &str) -> (r: String)
    ensures
        r@ == debug_text(s@),
        (forall|i: int| 0 <= i < s@.len() ==> ' ' <= #[trigger] s@[i] && s@[i] <= '~' && s@[i] != '"' && s@[i] != '\\')
            ==> r@ == seq!['"'] + s@ + seq!['"'],
{
    format!("{s:?}")
}

} // verus!
