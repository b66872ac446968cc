//! Where things are drawn: terminal rectangles, the tab rows of folders and topics, and
//! the column a click lands on in a line of text.

use crate::mouse_events::{line_models, wrap_display_line_ranges, wrap_lines_spec, wrap_run};
use crate::text::{char_display_width, char_display_width_spec, chars_of, concat_chars, display_width, string_of, unicode_str_width};
use crate::types::{Message, MessageMediaKind, MessageStatus};
use vstd::prelude::*;

verus! {

/// A rectangle of terminal cells: its top-left cell and its size.
#[derive(Debug, Clone, Copy, PartialEq, Eq, Structural)]
pub struct Rect {
    pub x: u16,
    pub y: u16,
    pub width: u16,
    pub height: u16,
}

/// `a + b`, stopping at the largest cell coordinate.
pub open spec fn sat_add16(a: u16, b: u16) -> int {
    if a + b > u16::MAX {
        u16::MAX as int
    } else {
        a + b
    }
}

/// `a - 1`, stopping at 0.
pub open spec fn sat_dec(a: int) -> int {
    if a > 0 {
        a - 1
    } else {
        0
    }
}

impl Rect {
    pub fn new(x: u16, y: u16, width: u16, height: u16) -> (r: Rect)
        ensures
            r == (Rect { x, y, width, height }),
    {
        Rect { x, y, width, height }
    }

    /// The column just right of the rectangle.
    pub open spec fn right(self) -> int {
        sat_add16(self.x, self.width)
    }

    /// The row just below the rectangle.
    pub open spec fn bottom(self) -> int {
        sat_add16(self.y, self.height)
    }

    pub open spec fn contains_spec(self, x: u16, y: u16) -> bool {
        &&& self.x <= x < self.right()
        &&& self.y <= y < self.bottom()
    }

    /// Whether the cell `(x, y)` lies in the rectangle.
    pub fn contains(&self, x: u16, y: u16) -> (r: bool)
        ensures
            r == self.contains_spec(x, y),
    {
        let right: u16 = self.x.saturating_add(self.width);
        let bottom: u16 = self.y.saturating_add(self.height);
        x >= self.x && x < right && y >= self.y && y < bottom
    }
}

/// Whether `(x, y)` lies strictly inside the border drawn around `area`.
pub open spec fn inner_contains_spec(area: Rect, x: u16, y: u16) -> bool {
    &&& x > area.x
    &&& x < sat_dec(area.right())
    &&& y > area.y
    &&& y < sat_dec(area.bottom())
}

/// Whether `(x, y)` lies strictly inside the border drawn around `area`.
pub fn panel_inner_contains(area: Rect, x: u16, y: u16) -> (r: bool)
    ensures
        r == inner_contains_spec(area, x, y),
{
    let right: u16 = area.x.saturating_add(area.width).saturating_sub(1);
    let bottom: u16 = area.y.saturating_add(area.height).saturating_sub(1);
    x > area.x && x < right && y > area.y && y < bottom
}

/// Columns taken by the border of a list and the marker of its selected row.
pub const LIST_CHROME_WIDTH: u16 = 4;

/// Columns taken by the marker of the selected row.
pub const SELECTED_ROW_SYMBOL_WIDTH: usize = 2;

pub open spec fn list_text_width_spec(width: u16) -> int {
    if width >= LIST_CHROME_WIDTH {
        width - LIST_CHROME_WIDTH
    } else {
        0
    }
}

/// Columns left for text in a bordered list `width` columns wide.
pub fn list_text_width(width: u16) -> (r: usize)
    ensures
        r == list_text_width_spec(width),
{
    if width >= LIST_CHROME_WIDTH {
        (width - LIST_CHROME_WIDTH) as usize
    } else {
        0
    }
}

/// The tab at `column` of a tab row whose labels are `widths` columns wide, looking from
/// tab `k`, which starts at column `start`. Each tab is its label with one column of
/// padding on either side; one divider column follows each tab.
pub open spec fn tab_at_from(widths: Seq<usize>, column: int, k: int, start: int) -> Option<usize>
    decreases widths.len() - k,
{
    if k < 0 || k >= widths.len() || column < start {
        None
    } else if column < start + widths[k] + 2 {
        Some(k as usize)
    } else {
        tab_at_from(widths, column, k + 1, start + widths[k] + 3)
    }
}

/// The tab at `column` of a tab row whose labels are `widths` columns wide.
pub open spec fn tab_at(widths: Seq<usize>, column: int) -> Option<usize> {
    tab_at_from(widths, column, 0, 0)
}

/// The tab at `column` of a tab row whose labels are `widths` columns wide; `None` on a
/// divider or past the last tab.
pub fn tab_index_at_column(widths: &Vec<usize>, column: usize) -> (r: Option<usize>)
    ensures
        r == tab_at(widths@, column as int),
{
    let mut k: usize = 0;
    let mut start: usize = 0;
    while k < widths.len()
        invariant
            k <= widths@.len(),
            start <= column + 1,
            tab_at(widths@, column as int) == tab_at_from(widths@, column as int, k as int, start as int),
        decreases widths.len() - k,
    {
        if column < start {
            return None;
        }
        let offset = column - start;
        let w = widths[k];
        if offset < 2 || offset - 2 < w {
            return Some(k);
        }
        if offset - 2 == w {
            assert(tab_at_from(widths@, column as int, k + 1, start + w + 3) is None) by {
                if k + 1 < widths@.len() {
                    assert(column < start + w + 3);
                }
            }
            return None;
        }
        start = start + w + 3;
        k = k + 1;
    }
    None
}

/// How many of `chars[k..]` fit, one after another, in `column` columns when `used` are
/// already taken; the cursor lands after them.
pub open spec fn chars_fitting_from(chars: Seq<char>, column: int, k: int, used: int) -> int
    decreases chars.len() - k,
{
    if k < 0 || k >= chars.len() {
        if k < 0 {
            0
        } else {
            k
        }
    } else if used + char_display_width_spec(chars[k]) > column {
        k
    } else {
        chars_fitting_from(chars, column, k + 1, used + char_display_width_spec(chars[k]))
    }
}

/// The cursor position for a click at display column `column` of `chars`: after the
/// characters that fit wholly left of the click.
pub open spec fn cursor_for_column(chars: Seq<char>, column: int) -> int {
    chars_fitting_from(chars, column, 0, 0)
}

proof fn lemma_chars_fitting_bounds(chars: Seq<char>, column: int, k: int, used: int)
    requires
        0 <= k <= chars.len(),
    ensures
        k <= chars_fitting_from(chars, column, k, used) <= chars.len(),
    decreases chars.len() - k,
{
    if k < chars.len() && used + char_display_width_spec(chars[k]) <= column {
        lemma_chars_fitting_bounds(chars, column, k + 1, used + char_display_width_spec(chars[k]));
    }
}

/// The cursor position for a click at display column `column` of `chars`.
pub fn cursor_at_column(chars: &Vec<char>, column: usize) -> (r: usize)
    ensures
        r == cursor_for_column(chars@, column as int),
        r <= chars@.len(),
{
    proof {
        lemma_chars_fitting_bounds(chars@, column as int, 0, 0);
    }
    let mut k: usize = 0;
    let mut used: usize = 0;
    while k < chars.len()
        invariant
            k <= chars@.len(),
            used <= column,
            cursor_for_column(chars@, column as int) == chars_fitting_from(chars@, column as int, k as int, used as int),
        decreases chars.len() - k,
    {
        let w = char_display_width(chars[k]);
        if w > column - used {
            return k;
        }
        used = used + w;
        k = k + 1;
    }
    k
}

/// The text shown for attached media.
pub open spec fn media_placeholder_spec(kind: MessageMediaKind) -> Seq<char> {
    match kind {
        MessageMediaKind::Photo => "[photo]"@,
        MessageMediaKind::Video => "[video]"@,
        MessageMediaKind::Audio => "[audio]"@,
        MessageMediaKind::Voice => "[voice]"@,
        MessageMediaKind::Document => "[document]"@,
        MessageMediaKind::Sticker => "[sticker]"@,
        MessageMediaKind::Other => "[media]"@,
    }
}

/// The text shown for attached media.
pub fn media_placeholder(kind: MessageMediaKind) -> (r: &'static str)
    ensures
        r@ == media_placeholder_spec(kind),
{
    match kind {
        MessageMediaKind::Photo => "[photo]",
        MessageMediaKind::Video => "[video]",
        MessageMediaKind::Audio => "[audio]",
        MessageMediaKind::Voice => "[voice]",
        MessageMediaKind::Document => "[document]",
        MessageMediaKind::Sticker => "[sticker]",
        MessageMediaKind::Other => "[media]",
    }
}

/// The body shown for a message: its text, after the placeholder of its media.
pub open spec fn display_content_spec(m: Message) -> Seq<char> {
    match m.media {
        Some(media) => if m.content@.len() == 0 {
            media_placeholder_spec(media.kind)
        } else {
            media_placeholder_spec(media.kind) + seq![' '] + m.content@
        },
        None => m.content@,
    }
}

/// The body shown for a message.
pub fn message_display_content(m: &Message) -> (r: Vec<char>)
    ensures
        r@ == display_content_spec(*m),
{
    match &m.media {
        Some(media) => {
            let placeholder = chars_of(media_placeholder(media.kind));
            let content = chars_of(m.content.as_str());
            if content.len() == 0 {
                placeholder
            } else {
                let space: Vec<char> = vec![' '];
                let spaced = concat_chars(&placeholder, space.as_slice());
                concat_chars(&spaced, content.as_slice())
            }
        },
        None => chars_of(m.content.as_str()),
    }
}

/// The sender label before a message body.
pub open spec fn sender_prefix_spec(m: Message) -> Seq<char> {
    m.sender_name@ + seq![':', ' ']
}

/// Columns of the sender label before a message body.
pub fn sender_prefix_width(m: &Message) -> (r: usize)
    ensures
        r == unicode_str_width(sender_prefix_spec(*m)),
{
    let name = chars_of(m.sender_name.as_str());
    let colon: Vec<char> = vec![':', ' '];
    let label = concat_chars(&name, colon.as_slice());
    display_width(label.as_slice())
}

/// Columns of the status mark after the time: an ellipsis while sending, a `!` after a
/// failure, each after a space.
pub open spec fn status_mark_width(status: MessageStatus) -> int {
    match status {
        MessageStatus::Sending | MessageStatus::Failed => 2,
        _ => 0,
    }
}

/// Columns of the metadata after a message's first line: the time (`HH:MM`), ` edited`
/// when edited, and the status mark.
pub open spec fn metadata_width_spec(m: Message) -> int {
    5 + (if m.is_edited { 7int } else { 0int }) + status_mark_width(m.status)
}

pub fn metadata_width(m: &Message) -> (r: usize)
    ensures
        r == metadata_width_spec(*m),
{
    let edited: usize = if m.is_edited { 7 } else { 0 };
    let mark: usize = match m.status {
        MessageStatus::Sending | MessageStatus::Failed => 2,
        _ => 0,
    };
    5 + edited + mark
}

/// At least one column.
pub open spec fn at_least_one(w: int) -> int {
    if w < 1 {
        1
    } else {
        w
    }
}

/// Columns for a message body on its first line (after the sender label, before the
/// metadata) in a list `text_width` columns wide.
pub open spec fn first_line_width(m: Message, text_width: int) -> int {
    at_least_one(text_width - unicode_str_width(sender_prefix_spec(m)) - metadata_width_spec(m))
}

/// Columns for a message body on its following lines.
pub open spec fn next_line_width(m: Message, text_width: int) -> int {
    at_least_one(text_width - unicode_str_width(sender_prefix_spec(m)))
}

/// The lines of a message body, at most `max_lines` of them.
pub open spec fn body_lines_spec(m: Message, text_width: int, max_lines: int) -> Seq<(int, Seq<char>)> {
    wrap_lines_spec(display_content_spec(m), first_line_width(m, text_width), next_line_width(m, text_width), max_lines)
}

/// A reply preview takes the last row of a message when at least two rows are left.
pub open spec fn reply_preview_visible_spec(m: Message, remaining: int) -> bool {
    m.reply_to_content is Some && remaining >= 2
}

/// Rows a message takes with `remaining` rows left: its body lines and its reply
/// preview, cut to what is left.
pub open spec fn row_height_spec(m: Message, text_width: int, remaining: int) -> int {
    if remaining <= 0 {
        0
    } else {
        let body = body_lines_spec(m, text_width, remaining).len() as int;
        let total = body + (if reply_preview_visible_spec(m, remaining) { 1int } else { 0int });
        if total > remaining {
            remaining
        } else {
            total
        }
    }
}

/// The lines of a message body, each with the index of its first character.
pub fn message_body_lines(m: &Message, content: &Vec<char>, text_width: usize, max_lines: usize) -> (r: Vec<(usize, String)>)
    requires
        content@ == display_content_spec(*m),
    ensures
        line_models(r@) == body_lines_spec(*m, text_width as int, max_lines as int),
{
    let sender = sender_prefix_width(m);
    let meta = metadata_width(m);
    let rest: usize = if text_width > sender { text_width - sender } else { 0 };
    let first: usize = if rest > meta { rest - meta } else { 0 };
    let first: usize = if first < 1 { 1 } else { first };
    let rest: usize = if rest < 1 { 1 } else { rest };
    let text = string_of(content.as_slice());
    wrap_display_line_ranges(text.as_str(), first, rest, max_lines)
}

proof fn lemma_wrap_len_bound(t: Seq<char>, fw: int, sw: int, max_lines: int, n: int)
    requires
        max_lines > 0,
        0 <= n <= t.len(),
    ensures
        wrap_run(t, fw, sw, max_lines, n).lines.len() <= max_lines,
        !wrap_run(t, fw, sw, max_lines, n).done ==> wrap_run(t, fw, sw, max_lines, n).lines.len() < max_lines,
        wrap_run(t, fw, sw, max_lines, n).done ==> wrap_run(t, fw, sw, max_lines, n).lines.len() == max_lines,
    decreases n,
{
    if n > 0 {
        lemma_wrap_len_bound(t, fw, sw, max_lines, n - 1);
    }
}

/// A message body never takes more than the lines it may.
pub proof fn lemma_body_lines_bound(m: Message, text_width: int, max_lines: int)
    ensures
        body_lines_spec(m, text_width, max_lines).len() <= (if max_lines < 0 { 0 } else { max_lines }),
        max_lines > 0 ==> body_lines_spec(m, text_width, max_lines).len() >= 1,
{
    if max_lines > 0 {
        let t = display_content_spec(m);
        lemma_wrap_len_bound(t, at_least_one(first_line_width(m, text_width)), at_least_one(next_line_width(m, text_width)), max_lines, t.len() as int);
    }
}

/// Rows a message takes with `remaining` rows left.
pub fn message_row_height(m: &Message, content: &Vec<char>, text_width: usize, remaining: usize) -> (h: usize)
    requires
        content@ == display_content_spec(*m),
    ensures
        h == row_height_spec(*m, text_width as int, remaining as int),
        h <= remaining,
        remaining > 0 ==> h >= 1,
{
    if remaining == 0 {
        return 0;
    }
    let lines = message_body_lines(m, content, text_width, remaining);
    proof {
        lemma_body_lines_bound(*m, text_width as int, remaining as int);
        assert(line_models(lines@).len() == lines@.len());
    }
    let body = lines.len();
    let preview = m.reply_to_content.is_some() && remaining >= 2;
    if preview {
        if body >= remaining {
            remaining
        } else {
            body + 1
        }
    } else {
        body
    }
}

} // verus!
