//! What a mouse event does: the outcomes the event loop acts on, and finding the link
//! under a click in wrapped message text.
//!
//! Positions in text are counted in characters.

use crate::keys::KeyModifiers;
use crate::layout::{
    body_lines_spec, display_content_spec, inner_contains_spec, list_text_width, list_text_width_spec,
    message_body_lines, message_display_content, message_row_height, panel_inner_contains,
    reply_preview_visible_spec, row_height_spec, sender_prefix_spec, sender_prefix_width, tab_at,
    cursor_for_column, Rect, SELECTED_ROW_SYMBOL_WIDTH,
};
use crate::links::{lemma_links_from_well_formed, links_in_chars, links_spec, models, slice_range, width_of, LinkModel};
use crate::mouse_state::{
    chats_scrolled, context_actions_spec, divider_contains_spec, folder_label_widths, lemma_message_hit_range,
    menu_item_at_spec, menu_opened, message_capacity_spec, split_for_column, topic_label_widths, CHAT_ROW_HEIGHT,
};
use crate::state::{AppState, FocusedPanel};
use crate::types::Chat;
use crate::text::{char_display_width, char_display_width_spec, chars_of, display_width, string_of, unicode_str_width};
use vstd::prelude::*;

verus! {

/// A mouse button.
#[derive(Debug, Clone, Copy, PartialEq, Eq, Structural)]
pub enum MouseButton {
    Left,
    Right,
    Middle,
}

/// What the mouse did.
#[derive(Debug, Clone, Copy, PartialEq, Eq, Structural)]
pub enum MouseEventKind {
    Down(MouseButton),
    Up(MouseButton),
    Drag(MouseButton),
    Moved,
    ScrollDown,
    ScrollUp,
    ScrollLeft,
    ScrollRight,
}

/// A mouse event at a terminal cell, with the modifier keys held.
#[derive(Debug, Clone, Copy, PartialEq, Eq, Structural)]
pub struct MouseEvent {
    pub kind: MouseEventKind,
    pub column: u16,
    pub row: u16,
    pub modifiers: KeyModifiers,
}

/// What a scroll did.
#[derive(Debug, Clone, Copy, PartialEq, Eq, Structural)]
pub enum MouseScrollOutcome {
    Handled,
    Ignored,
}

/// What a context menu was opened on.
#[derive(Debug, Clone, Copy, PartialEq, Eq, Structural)]
pub enum ContextMenuTarget {
    Chat { chat_id: i64 },
    Message { chat_id: i64, message_id: i32 },
}

/// The entries of the context menus.
#[derive(Debug, Clone, Copy, PartialEq, Eq, Structural)]
pub enum ContextMenuAction {
    OpenChat,
    MarkChatRead,
    CopyChatName,
    CopyMessageText,
    OpenMessageLink,
    ReplyMessage,
    EditMessage,
    DeleteMessage,
    SaveMessageMedia,
    OpenDownloadedMedia,
    DismissFailedSend,
}

/// An open context menu: what it was opened on, its entries, the highlighted entry, and
/// where it is drawn.
#[derive(Debug, Clone)]
pub struct ContextMenu {
    pub target: ContextMenuTarget,
    pub actions: Vec<ContextMenuAction>,
    pub highlighted: usize,
    pub area: Rect,
}

/// What a click asks the event loop to do.
#[derive(Debug, Clone, PartialEq, Eq)]
pub enum MouseClickOutcome {
    Handled,
    OpenFolderAt(usize),
    OpenChatAt(usize),
    OpenThreadTopicAt(usize),
    OpenLink(String),
    ContextMenuAction(ContextMenuTarget, ContextMenuAction),
    Ignored,
}

/// Whether `column` of the wrapped line `t[line_start..line_end]` falls on the part of
/// `link` that the line shows.
pub open spec fn link_covers_line_column(t: Seq<char>, link: LinkModel, line_start: int, line_end: int, column: int) -> bool {
    let from = if link.start > line_start { link.start } else { line_start };
    let to = if link.end < line_end { link.end } else { line_end };
    &&& from < to
    &&& width_of(t, line_start, from) <= column
    &&& column < width_of(t, line_start, to)
}

/// The URL of the first of `links[k..]` shown at `column` of the wrapped line.
pub open spec fn first_link_in_line_at(t: Seq<char>, links: Seq<LinkModel>, line_start: int, line_end: int, column: int, k: int) -> Option<Seq<char>>
    decreases links.len() - k,
{
    if k >= links.len() || k < 0 {
        None
    } else if link_covers_line_column(t, links[k], line_start, line_end, column) {
        Some(links[k].url)
    } else {
        first_link_in_line_at(t, links, line_start, line_end, column, k + 1)
    }
}

/// The URL of the link shown at display column `column` of the wrapped line that holds
/// `text[line_start..line_end]`; a link cut by the wrap is found on either line.
pub fn link_in_wrapped_line_at_column(text: &str, line_start: usize, line_end: usize, column: usize) -> (r: Option<String>)
    requires
        line_start <= line_end <= text@.len(),
    ensures
        match r {
            Some(u) => first_link_in_line_at(text@, links_spec(text@), line_start as int, line_end as int, column as int, 0) == Some(u@),
            None => first_link_in_line_at(text@, links_spec(text@), line_start as int, line_end as int, column as int, 0) is None,
        },
{
    let t = chars_of(text);
    let links = links_in_chars(&t);
    proof {
        lemma_links_from_well_formed(t@, 0, 0);
    }
    let mut k: usize = 0;
    while k < links.len()
        invariant
            k <= links@.len(),
            line_start <= line_end <= t@.len(),
            models(links@) == links_spec(t@),
            t@ == text@,
            forall|j: int| 0 <= j < links_spec(t@).len() ==> {
                let m = #[trigger] links_spec(t@)[j];
                &&& 0 <= m.start < m.end <= t@.len()
                &&& m.url == t@.subrange(m.start, m.end)
            },
            first_link_in_line_at(t@, links_spec(t@), line_start as int, line_end as int, column as int, 0)
                == first_link_in_line_at(t@, links_spec(t@), line_start as int, line_end as int, column as int, k as int),
        decreases links.len() - k,
    {
        let link = &links[k];
        assert(models(links@)[k as int] == link.model());
        let from = if link.start > line_start { link.start } else { line_start };
        let to = if link.end < line_end { link.end } else { line_end };
        if from < to {
            let start_column = display_width(slice_range(&t, line_start, from).as_slice());
            let end_column = display_width(slice_range(&t, line_start, to).as_slice());
            if column >= start_column && column < end_column {
                return Some(link.url.clone());
            }
        }
        k += 1;
    }
    None
}

/// Where wrapping stands after some characters: the closed lines (each with the index of
/// its first character), the open line, its start, width and width limit, and whether the
/// line limit was reached.
pub struct WrapState {
    pub lines: Seq<(int, Seq<char>)>,
    pub current: Seq<char>,
    pub start: int,
    pub width: int,
    pub limit: int,
    pub done: bool,
}

pub open spec fn wrap_begin(first_width: int) -> WrapState {
    WrapState { lines: Seq::empty(), current: Seq::empty(), start: 0, width: 0, limit: first_width, done: false }
}

/// One character `c`, at index `at`: a newline closes the line; a character that does not
/// fit the open line's limit (and the line is not empty) closes it and opens the next;
/// otherwise it joins the open line. Lines after the first use `subsequent_width`.
pub open spec fn wrap_char(s: WrapState, c: char, at: int, subsequent_width: int, max_lines: int) -> WrapState {
    if c == '\n' {
        let lines = s.lines.push((s.start, s.current));
        if lines.len() >= max_lines {
            WrapState { lines, done: true, ..s }
        } else {
            WrapState { lines, current: Seq::empty(), start: at + 1, width: 0, limit: subsequent_width, done: false }
        }
    } else {
        let w = char_display_width_spec(c) as int;
        if s.width > 0 && s.width + w > s.limit {
            let lines = s.lines.push((s.start, s.current));
            if lines.len() >= max_lines {
                WrapState { lines, done: true, ..s }
            } else {
                WrapState { lines, current: seq![c], start: at, width: w, limit: subsequent_width, done: false }
            }
        } else {
            WrapState { current: s.current.push(c), width: s.width + w, ..s }
        }
    }
}

/// The wrapping state after `t[..n]`; once the line limit is reached nothing changes.
pub open spec fn wrap_run(t: Seq<char>, first_width: int, subsequent_width: int, max_lines: int, n: int) -> WrapState
    decreases n,
{
    if n <= 0 {
        wrap_begin(first_width)
    } else {
        let s = wrap_run(t, first_width, subsequent_width, max_lines, n - 1);
        if s.done {
            s
        } else {
            wrap_char(s, t[n - 1], n - 1, subsequent_width, max_lines)
        }
    }
}

/// The lines `t` wraps into: the first at most `first_width` columns wide, the rest at
/// most `subsequent_width` (each at least 1; a character wider than the limit gets a line
/// of its own), breaking at newlines too, and stopping after `max_lines` lines.
pub open spec fn wrap_lines_spec(t: Seq<char>, first_width: int, subsequent_width: int, max_lines: int) -> Seq<(int, Seq<char>)> {
    if max_lines <= 0 {
        Seq::empty()
    } else {
        let fw = if first_width < 1 { 1 } else { first_width };
        let sw = if subsequent_width < 1 { 1 } else { subsequent_width };
        let s = wrap_run(t, fw, sw, max_lines, t.len() as int);
        if s.done {
            s.lines
        } else {
            s.lines.push((s.start, s.current))
        }
    }
}

pub open spec fn line_models(v: Seq<(usize, String)>) -> Seq<(int, Seq<char>)> {
    v.map_values(|p: (usize, String)| (p.0 as int, p.1@))
}

proof fn lemma_wrap_done_stays(t: Seq<char>, fw: int, sw: int, max_lines: int, i: int, n: int)
    requires
        0 <= i <= n,
        wrap_run(t, fw, sw, max_lines, i).done,
    ensures
        wrap_run(t, fw, sw, max_lines, n) == wrap_run(t, fw, sw, max_lines, i),
    decreases n - i,
{
    if n > i {
        lemma_wrap_done_stays(t, fw, sw, max_lines, i, n - 1);
    }
}

/// The lines `text` wraps into, each with the index of its first character (see
/// `wrap_lines_spec`).
pub fn wrap_display_line_ranges(text: &str, first_width: usize, subsequent_width: usize, max_lines: usize) -> (r: Vec<(usize, String)>)
    ensures
        line_models(r@) == wrap_lines_spec(text@, first_width as int, subsequent_width as int, max_lines as int),
{
    if max_lines == 0 {
        let r: Vec<(usize, String)> = Vec::new();
        assert(line_models(r@) =~= Seq::empty());
        return r;
    }
    let t = chars_of(text);
    let fw: usize = if first_width == 0 { 1 } else { first_width };
    let sw: usize = if subsequent_width == 0 { 1 } else { subsequent_width };
    let ghost gt = t@;
    assert(fw as int == (if (first_width as int) < 1 { 1int } else { first_width as int }));
    assert(sw as int == (if (subsequent_width as int) < 1 { 1int } else { subsequent_width as int }));
    let mut lines: Vec<(usize, String)> = Vec::new();
    let mut current: Vec<char> = Vec::new();
    let mut start: usize = 0;
    let mut width: usize = 0;
    let mut limit: usize = fw;
    let mut i: usize = 0;
    assert(line_models(lines@) =~= Seq::empty());
    while i < t.len()
        invariant
            i <= t@.len(),
            gt == t@,
            gt == text@,
            max_lines > 0,
            fw as int == (if (first_width as int) < 1 { 1int } else { first_width as int }),
            sw as int == (if (subsequent_width as int) < 1 { 1int } else { subsequent_width as int }),
            start <= i,
            ({
                let s = wrap_run(gt, fw as int, sw as int, max_lines as int, i as int);
                &&& !s.done
                &&& line_models(lines@) == s.lines
                &&& current@ == s.current
                &&& start == s.start
                &&& width == s.width
                &&& limit == s.limit
            }),
        decreases t.len() - i,
    {
        let ghost s = wrap_run(gt, fw as int, sw as int, max_lines as int, i as int);
        let ghost next = wrap_run(gt, fw as int, sw as int, max_lines as int, i + 1);
        assert(next == wrap_char(s, gt[i as int], i as int, sw as int, max_lines as int));
        let c = t[i];
        if c == '\n' {
            let line = string_of(current.as_slice());
            lines.push((start, line));
            assert(line_models(lines@) =~= s.lines.push((s.start, s.current)));
            if lines.len() >= max_lines {
                proof {
                    assert(next.done);
                    assert(next.lines == line_models(lines@));
                    lemma_wrap_done_stays(gt, fw as int, sw as int, max_lines as int, i + 1, gt.len() as int);
                    assert(wrap_run(gt, fw as int, sw as int, max_lines as int, gt.len() as int) == next);
                    assert(wrap_lines_spec(text@, first_width as int, subsequent_width as int, max_lines as int) == next.lines);
                }
                return lines;
            }
            current = Vec::new();
            start = i + 1;
            width = 0;
            limit = sw;
            assert(current@ =~= Seq::<char>::empty());
        } else {
            let w = char_display_width(c);
            if width > 0 && (width > limit || w > limit - width) {
                let line = string_of(current.as_slice());
                lines.push((start, line));
                assert(line_models(lines@) =~= s.lines.push((s.start, s.current)));
                if lines.len() >= max_lines {
                    proof {
                        assert(next.done);
                        assert(next.lines == line_models(lines@));
                        lemma_wrap_done_stays(gt, fw as int, sw as int, max_lines as int, i + 1, gt.len() as int);
                        assert(wrap_run(gt, fw as int, sw as int, max_lines as int, gt.len() as int) == next);
                    assert(wrap_lines_spec(text@, first_width as int, subsequent_width as int, max_lines as int) == next.lines);
                    }
                    return lines;
                }
                current = Vec::new();
                current.push(c);
                assert(current@ =~= seq![c]);
                start = i;
                width = w;
                limit = sw;
            } else {
                current.push(c);
                width = width + w;
            }
        }
        i += 1;
    }
    let line = string_of(current.as_slice());
    let ghost before = lines@;
    lines.push((start, line));
    assert(line_models(lines@) =~= line_models(before).push((start as int, current@)));
    lines
}


proof fn lemma_wrap_run_within(t: Seq<char>, fw: int, sw: int, max_lines: int, n: int)
    requires
        0 <= n <= t.len(),
    ensures
        ({
            let s = wrap_run(t, fw, sw, max_lines, n);
            &&& forall|j: int| 0 <= j < s.lines.len() ==> 0 <= (#[trigger] s.lines[j]).0 && s.lines[j].0 + s.lines[j].1.len() <= n
            &&& 0 <= s.start
            &&& s.start + s.current.len() <= n
        }),
    decreases n,
{
    if n > 0 {
        lemma_wrap_run_within(t, fw, sw, max_lines, n - 1);
    }
}

/// Every wrapped line lies inside the text.
pub proof fn lemma_wrap_lines_within(t: Seq<char>, fw: int, sw: int, max_lines: int)
    ensures
        forall|j: int| 0 <= j < wrap_lines_spec(t, fw, sw, max_lines).len() ==> {
            let line = #[trigger] wrap_lines_spec(t, fw, sw, max_lines)[j];
            0 <= line.0 && line.0 + line.1.len() <= t.len()
        },
{
    if max_lines > 0 {
        let f = if fw < 1 { 1 } else { fw };
        let s_ = if sw < 1 { 1 } else { sw };
        lemma_wrap_run_within(t, f, s_, max_lines, t.len() as int);
        let s = wrap_run(t, f, s_, max_lines, t.len() as int);
        if !s.done {
            let all = s.lines.push((s.start, s.current));
            assert forall|j: int| 0 <= j < all.len() implies 0 <= (#[trigger] all[j]).0 && all[j].0 + all[j].1.len() <= t.len() by {
                if j < s.lines.len() {
                    assert(all[j] == s.lines[j]);
                }
            }
        }
    }
}

/// The total display width of `s`.
pub open spec fn widths(s: Seq<char>) -> int
    decreases s.len(),
{
    if s.len() == 0 {
        0
    } else {
        widths(s.drop_last()) + char_display_width_spec(s.last()) as int
    }
}

/// `t` with its line breaks left out.
pub open spec fn without_newlines(t: Seq<char>) -> Seq<char>
    decreases t.len(),
{
    if t.len() == 0 {
        t
    } else if t.last() == '\n' {
        without_newlines(t.drop_last())
    } else {
        without_newlines(t.drop_last()).push(t.last())
    }
}

/// The texts of `lines` one after the other.
pub open spec fn joined(lines: Seq<(int, Seq<char>)>) -> Seq<char>
    decreases lines.len(),
{
    if lines.len() == 0 {
        Seq::empty()
    } else {
        joined(lines.drop_last()) + lines.last().1
    }
}

pub open spec fn has_no_newline(s: Seq<char>) -> bool {
    forall|i: int| 0 <= i < s.len() ==> s[i] != '\n'
}

/// The width limit of line `j`: `first_width` for the first line, `subsequent_width` for
/// the others.
pub open spec fn line_limit(j: int, first_width: int, subsequent_width: int) -> int {
    if j == 0 { first_width } else { subsequent_width }
}

/// Line `line` is the text of `t` that starts at its index, holds no line break, and is
/// wider than `limit` only when everything but its last character has no width.
pub open spec fn line_fits(t: Seq<char>, line: (int, Seq<char>), limit: int) -> bool {
    &&& 0 <= line.0
    &&& line.0 + line.1.len() <= t.len()
    &&& line.1 == t.subrange(line.0, line.0 + line.1.len())
    &&& has_no_newline(line.1)
    &&& widths(line.1) > limit ==> line.1.len() > 0 && widths(line.1.drop_last()) == 0
}

/// What holds of the wrapping state after `t[..n]`.
pub open spec fn wrap_inv(t: Seq<char>, fw: int, sw: int, max_lines: int, n: int, s: WrapState) -> bool {
    &&& forall|j: int| #![trigger s.lines[j]] 0 <= j < s.lines.len() ==> line_fits(t, s.lines[j], line_limit(j, fw, sw))
    &&& forall|j: int, k: int| #![trigger s.lines[j], s.lines[k]] 0 <= j < k < s.lines.len() ==> s.lines[j].0 < s.lines[k].0
    &&& s.lines.len() > 0 ==> s.lines[0].0 == 0
    &&& s.done ==> s.lines.len() == max_lines && joined(s.lines) == without_newlines(t.take(n)).take(joined(s.lines).len() as int)
        && joined(s.lines).len() <= without_newlines(t.take(n)).len()
    &&& !s.done ==> {
        &&& s.lines.len() < max_lines
        &&& s.limit == line_limit(s.lines.len() as int, fw, sw)
        &&& s.width == widths(s.current)
        &&& line_fits(t, (s.start, s.current), s.limit)
        &&& s.start + s.current.len() == n
        &&& s.lines.len() == 0 ==> s.start == 0
        &&& forall|j: int| #![trigger s.lines[j]] 0 <= j < s.lines.len() ==> s.lines[j].0 < s.start
        &&& joined(s.lines) + s.current == without_newlines(t.take(n))
    }
}

proof fn lemma_widths_push(s: Seq<char>, c: char)
    ensures
        widths(s.push(c)) == widths(s) + char_display_width_spec(c) as int,
        widths(s) >= 0,
    decreases s.len(),
{
    assert(s.push(c).drop_last() =~= s);
    if s.len() > 0 {
        lemma_widths_push(s.drop_last(), s.last());
        assert(s.drop_last().push(s.last()) =~= s);
    }
}

proof fn lemma_joined_push(lines: Seq<(int, Seq<char>)>, l: (int, Seq<char>))
    ensures
        joined(lines.push(l)) == joined(lines) + l.1,
{
    assert(lines.push(l).drop_last() =~= lines);
}

proof fn lemma_without_newlines_step(t: Seq<char>, n: int)
    requires
        0 <= n < t.len(),
    ensures
        without_newlines(t.take(n + 1)) == if t[n] == '\n' {
            without_newlines(t.take(n))
        } else {
            without_newlines(t.take(n)).push(t[n])
        },
{
    assert(t.take(n + 1).drop_last() =~= t.take(n));
    assert(t.take(n + 1).last() == t[n]);
}

proof fn lemma_wrap_inv(t: Seq<char>, fw: int, sw: int, max_lines: int, n: int)
    requires
        0 <= n <= t.len(),
        fw >= 1,
        sw >= 1,
        max_lines >= 1,
    ensures
        wrap_inv(t, fw, sw, max_lines, n, wrap_run(t, fw, sw, max_lines, n)),
    decreases n,
{
    let s = wrap_run(t, fw, sw, max_lines, n);
    if n == 0 {
        assert(t.take(0) =~= Seq::<char>::empty());
        assert(s.current.len() == 0);
        assert(s.current == t.subrange(0, 0));
        assert(joined(s.lines) + s.current =~= Seq::<char>::empty());
    } else {
        lemma_wrap_inv(t, fw, sw, max_lines, n - 1);
        let p = wrap_run(t, fw, sw, max_lines, n - 1);
        lemma_without_newlines_step(t, n - 1);
        let before = without_newlines(t.take(n - 1));
        let after = without_newlines(t.take(n));
        if p.done {
            assert(s == p);
            assert(before.len() <= after.len());
            assert(after.take(before.len() as int) =~= before);
            assert(after.take(joined(s.lines).len() as int) =~= before.take(joined(s.lines).len() as int));
        } else {
            let c = t[n - 1];
            let at = n - 1;
            let w = char_display_width_spec(c) as int;
            lemma_widths_push(p.current, c);
            assert(s == wrap_char(p, c, at, sw, max_lines));
            let lines = p.lines.push((p.start, p.current));
            let closes = c == '\n' || (p.width > 0 && p.width + w > p.limit);
            if closes {
                lemma_joined_push(p.lines, (p.start, p.current));
                assert forall|j: int| #![trigger lines[j]] 0 <= j < lines.len() implies line_fits(t, lines[j], line_limit(j, fw, sw)) by {
                    if j < p.lines.len() {
                        assert(lines[j] == p.lines[j]);
                    }
                }
                assert forall|j: int, k: int| #![trigger lines[j], lines[k]] 0 <= j < k < lines.len() implies lines[j].0 < lines[k].0 by {
                    assert(lines[j] == p.lines[j]);
                    if k < p.lines.len() {
                        assert(lines[k] == p.lines[k]);
                    }
                }
                if p.width > 0 {
                    assert(p.current.len() > 0);
                }
                if lines.len() >= max_lines {
                    assert(s.lines == lines);
                    assert(joined(lines) == before);
                    assert(before.len() <= after.len());
                    assert(after.take(before.len() as int) =~= before);
                } else if c == '\n' {
                    assert(s.current.len() == 0);
                    assert(s.current =~= t.subrange(n, n));
                    assert(joined(lines) + s.current =~= after);
                    assert forall|j: int| #![trigger lines[j]] 0 <= j < lines.len() implies lines[j].0 < s.start by {
                        if j < p.lines.len() {
                            assert(lines[j] == p.lines[j]);
                        }
                    }
                } else {
                    assert(s.current =~= seq![c]);
                    assert(s.current =~= t.subrange(at, at + 1));
                    assert(seq![c].drop_last() =~= Seq::<char>::empty());
                    lemma_widths_push(Seq::<char>::empty(), c);
                    assert(Seq::<char>::empty().push(c) =~= seq![c]);
                    assert(joined(lines) + s.current =~= after);
                    assert(p.start < at);
                    assert forall|j: int| #![trigger lines[j]] 0 <= j < lines.len() implies lines[j].0 < s.start by {
                        if j < p.lines.len() {
                            assert(lines[j] == p.lines[j]);
                        }
                    }
                }
            } else {
                assert(s.current == p.current.push(c));
                assert(s.current =~= t.subrange(s.start, s.start + s.current.len()));
                assert(s.current.drop_last() =~= p.current);
                assert(joined(s.lines) + s.current =~= after);
            }
        }
    }
}

/// The laws of wrapping: without lines allowed there are none; otherwise there are
/// between one and `max_lines` lines, the first starting at index 0 and each later one
/// further on; each line is the text at its index, holds no line break, and is wider than
/// its limit (the first line's `first_width`, the others' `subsequent_width`, each at
/// least 1) only when everything but its last character has no width; the lines one after
/// the other are the start of the text without its line breaks, and all of it when fewer
/// than `max_lines` lines were needed.
pub proof fn lemma_wrap_lines_laws(t: Seq<char>, first_width: int, subsequent_width: int, max_lines: int)
    ensures
        ({
            let r = wrap_lines_spec(t, first_width, subsequent_width, max_lines);
            let fw = if first_width < 1 { 1 } else { first_width };
            let sw = if subsequent_width < 1 { 1 } else { subsequent_width };
            &&& max_lines <= 0 ==> r.len() == 0
            &&& max_lines > 0 ==> {
                &&& 1 <= r.len() <= max_lines
                &&& r[0].0 == 0
                &&& forall|j: int| #![trigger r[j]] 0 <= j < r.len() ==> line_fits(t, r[j], line_limit(j, fw, sw))
                &&& forall|j: int, k: int| #![trigger r[j], r[k]] 0 <= j < k < r.len() ==> r[j].0 < r[k].0
                &&& joined(r).len() <= without_newlines(t).len()
                &&& joined(r) == without_newlines(t).take(joined(r).len() as int)
                &&& r.len() < max_lines ==> joined(r) == without_newlines(t)
            }
        }),
{
    if max_lines > 0 {
        let fw = if first_width < 1 { 1 } else { first_width };
        let sw = if subsequent_width < 1 { 1 } else { subsequent_width };
        lemma_wrap_inv(t, fw, sw, max_lines, t.len() as int);
        assert(t.take(t.len() as int) =~= t);
        let s = wrap_run(t, fw, sw, max_lines, t.len() as int);
        let r = wrap_lines_spec(t, first_width, subsequent_width, max_lines);
        if !s.done {
            assert(r == s.lines.push((s.start, s.current)));
            lemma_joined_push(s.lines, (s.start, s.current));
            assert(without_newlines(t).take(joined(r).len() as int) =~= without_newlines(t));
            assert forall|j: int| #![trigger r[j]] 0 <= j < r.len() implies line_fits(t, r[j], line_limit(j, fw, sw)) by {
                if j < s.lines.len() {
                    assert(r[j] == s.lines[j]);
                }
            }
            assert forall|j: int, k: int| #![trigger r[j], r[k]] 0 <= j < k < r.len() implies r[j].0 < r[k].0 by {
                assert(r[j] == s.lines[j]);
                if k < s.lines.len() {
                    assert(r[k] == s.lines[k]);
                }
            }
            if s.lines.len() > 0 {
                assert(r[0] == s.lines[0]);
            }
        }
    }
}

/// Whether a mouse event is a turn of the wheel.
pub open spec fn is_scroll(kind: MouseEventKind) -> bool {
    kind is ScrollDown || kind is ScrollUp || kind is ScrollLeft || kind is ScrollRight
}

/// What a wheel event does: nothing but being consumed while the divider is dragged or a
/// context menu is open; over the chat list it scrolls the list (and focuses it) without
/// changing the open chat; over the messages it moves the selection (and focuses them).
pub open spec fn scroll_outcome(old: AppState, ev: MouseEvent) -> (MouseScrollOutcome, AppState) {
    let (x, y) = (ev.column, ev.row);
    if !is_scroll(ev.kind) {
        (MouseScrollOutcome::Ignored, old)
    } else if old.split_drag_active || old.context_menu is Some {
        (MouseScrollOutcome::Handled, old)
    } else if ev.kind is ScrollDown && old.chats_area.contains_spec(x, y) {
        (MouseScrollOutcome::Handled, chats_scrolled(AppState { focused_panel: FocusedPanel::Chats, ..old }, 1isize))
    } else if ev.kind is ScrollUp && old.chats_area.contains_spec(x, y) {
        (MouseScrollOutcome::Handled, chats_scrolled(AppState { focused_panel: FocusedPanel::Chats, ..old }, -1isize))
    } else if ev.kind is ScrollDown && old.messages_area.contains_spec(x, y) {
        (MouseScrollOutcome::Handled, AppState {
            focused_panel: FocusedPanel::Messages,
            selected_message_index: AppState::next_index(old.selected_message_index, old.messages@.len()),
            ..old
        })
    } else if ev.kind is ScrollUp && old.messages_area.contains_spec(x, y) {
        (MouseScrollOutcome::Handled, AppState {
            focused_panel: FocusedPanel::Messages,
            selected_message_index: AppState::prev_index(old.selected_message_index),
            ..old
        })
    } else {
        (MouseScrollOutcome::Ignored, old)
    }
}

/// Handles a wheel event (see `scroll_outcome`).
pub fn handle_mouse_scroll(state: &mut AppState, mouse_event: MouseEvent) -> (r: MouseScrollOutcome)
    ensures
        old(state).wf() ==> final(state).wf(),
        (r, *final(state)) == scroll_outcome(*old(state), mouse_event),
{
    let is_wheel = match mouse_event.kind {
        MouseEventKind::ScrollDown | MouseEventKind::ScrollUp | MouseEventKind::ScrollLeft | MouseEventKind::ScrollRight => true,
        _ => false,
    };
    if !is_wheel {
        return MouseScrollOutcome::Ignored;
    }
    if state.split_drag_active || state.context_menu().is_some() {
        return MouseScrollOutcome::Handled;
    }
    let x = mouse_event.column;
    let y = mouse_event.row;
    let down = match mouse_event.kind {
        MouseEventKind::ScrollDown => true,
        _ => false,
    };
    let up = match mouse_event.kind {
        MouseEventKind::ScrollUp => true,
        _ => false,
    };
    if (down || up) && state.chats_area.contains(x, y) {
        state.focused_panel = FocusedPanel::Chats;
        if down {
            state.scroll_chats(1);
        } else {
            state.scroll_chats(-1);
        }
        MouseScrollOutcome::Handled
    } else if (down || up) && state.messages_area.contains(x, y) {
        state.focused_panel = FocusedPanel::Messages;
        if down {
            state.select_next_message();
        } else {
            state.select_prev_message();
        }
        MouseScrollOutcome::Handled
    } else {
        MouseScrollOutcome::Ignored
    }
}

/// `v - origin - 1`, or 0 when `v` is not past `origin`: the offset of `v` inside the
/// border that starts at `origin`.
pub open spec fn inside_offset(v: u16, origin: u16) -> int {
    if v > origin {
        v - origin - 1
    } else {
        0
    }
}

fn inside_offset_exec(v: u16, origin: u16) -> (r: usize)
    ensures
        r == inside_offset(v, origin),
{
    if v > origin {
        (v - origin - 1) as usize
    } else {
        0
    }
}

/// The chat drawn at `(x, y)`: rows of the chat list below its border, two rows per chat,
/// from the list's scroll offset.
pub open spec fn chat_at_spec(s: AppState, x: u16, y: u16) -> Option<usize> {
    if !inner_contains_spec(s.chats_area, x, y) || s.chats@.len() == 0 {
        None
    } else {
        let shown = s.display_indices_spec();
        let d = s.chat_display_offset() + (y - s.chats_area.y - 1) / (CHAT_ROW_HEIGHT as int);
        if d < shown.len() {
            Some(shown[d])
        } else {
            None
        }
    }
}

proof fn lemma_all_indices(n: int)
    requires
        n <= usize::MAX,
    ensures
        AppState::all_indices(n).len() == (if n < 0 { 0 } else { n }),
        forall|j: int| 0 <= j < AppState::all_indices(n).len() ==> #[trigger] AppState::all_indices(n)[j] == j,
    decreases n,
{
    if n > 0 {
        lemma_all_indices(n - 1);
        assert forall|j: int| 0 <= j < AppState::all_indices(n).len() implies #[trigger] AppState::all_indices(n)[j] == j by {
            if j < n - 1 {
                assert(AppState::all_indices(n)[j] == AppState::all_indices(n - 1)[j]);
            } else {
                assert(AppState::all_indices(n)[j] == (n - 1) as usize);
            }
        }
    }
}

proof fn lemma_matching_indices_below(chats: Seq<Chat>, query: Seq<char>, n: int)
    requires
        n <= usize::MAX,
    ensures
        forall|j: int| 0 <= j < AppState::matching_indices(chats, query, n).len() ==> #[trigger] AppState::matching_indices(chats, query, n)[j] < n,
    decreases n,
{
    if n > 0 {
        lemma_matching_indices_below(chats, query, n - 1);
        let prev = AppState::matching_indices(chats, query, n - 1);
        assert forall|j: int| 0 <= j < AppState::matching_indices(chats, query, n).len() implies #[trigger] AppState::matching_indices(chats, query, n)[j] < n by {
            if j < prev.len() {
                assert(AppState::matching_indices(chats, query, n)[j] == prev[j]);
            }
        }
    }
}

/// Every shown chat is a loaded chat.
pub proof fn lemma_display_indices_in_range(s: AppState)
    requires
        s.chats@.len() <= usize::MAX,
    ensures
        forall|j: int| 0 <= j < s.display_indices_spec().len() ==> #[trigger] s.display_indices_spec()[j] < s.chats@.len(),
{
    match s.chat_search {
        Some(q) => lemma_matching_indices_below(s.chats@, q@, s.chats@.len() as int),
        None => lemma_all_indices(s.chats@.len() as int),
    }
}

/// The chat drawn at `(x, y)` (see `chat_at_spec`).
pub fn chat_index_at(state: &AppState, x: u16, y: u16) -> (r: Option<usize>)
    ensures
        r == chat_at_spec(*state, x, y),
        r matches Some(i) ==> i < state.chats@.len(),
{
    if !panel_inner_contains(state.chats_area, x, y) || state.chats.len() == 0 {
        return None;
    }
    let relative_y = y - state.chats_area.y - 1;
    let offset = if state.chat_search_active() { state.chat_search_scroll_offset } else { state.chat_scroll_offset };
    let rows = (relative_y / CHAT_ROW_HEIGHT) as usize;
    let shown = state.chat_display_indices();
    proof {
        lemma_display_indices_in_range(*state);
    }
    if offset >= shown.len() || rows >= shown.len() - offset {
        return None;
    }
    Some(shown[offset + rows])
}

/// The URL under a click at `(x, y)` inside the message panel: the message drawn at that
/// row, the wrapped line of its body on that row (none on its reply preview row), and the
/// link shown at that column after the selection mark and the sender label.
pub open spec fn link_at_click_spec(s: AppState, x: u16, y: u16) -> Option<Seq<char>> {
    let row = y - s.messages_area.y - 1;
    let column = x - s.messages_area.x - 1;
    let text_width = list_text_width_spec(s.messages_area.width);
    match s.message_hit_spec(row) {
        None => None,
        Some(hit) => {
            let m = s.messages@[hit.0];
            let remaining = message_capacity_spec(s.messages_area) - hit.1;
            let line_index = row - hit.1;
            if reply_preview_visible_spec(m, remaining) && line_index + 1 == row_height_spec(m, text_width, remaining) {
                None
            } else {
                let lines = body_lines_spec(m, text_width, line_index + 1);
                if line_index >= lines.len() {
                    None
                } else {
                    let line = lines[line_index];
                    let start = SELECTED_ROW_SYMBOL_WIDTH + unicode_str_width(sender_prefix_spec(m));
                    if column < start {
                        None
                    } else {
                        let text = display_content_spec(m);
                        first_link_in_line_at(text, links_spec(text), line.0, line.0 + line.1.len(), column - start, 0)
                    }
                }
            }
        },
    }
}

/// The URL under a click at `(x, y)` inside the message panel (see `link_at_click_spec`).
pub fn message_link_at_click(state: &AppState, x: u16, y: u16) -> (r: Option<String>)
    requires
        inner_contains_spec(state.messages_area, x, y),
    ensures
        match r {
            Some(u) => link_at_click_spec(*state, x, y) == Some(u@),
            None => link_at_click_spec(*state, x, y) is None,
        },
{
    let row = (y - state.messages_area.y - 1) as usize;
    let column = (x - state.messages_area.x - 1) as usize;
    let text_width = list_text_width(state.messages_area.width);
    let capacity: usize = if state.messages_area.height >= 2 { (state.messages_area.height - 2) as usize } else { 0 };
    proof {
        lemma_message_hit_range(
            state.messages@,
            list_text_width_spec(state.messages_area.width),
            message_capacity_spec(state.messages_area),
            row as int,
            state.message_scroll_offset as int,
            0,
        );
    }
    let (index, first_row) = match state.message_row_at(row) {
        Some(hit) => hit,
        None => return None,
    };
    let m = &state.messages[index];
    let remaining = capacity - first_row;
    let line_index = row - first_row;
    let content = message_display_content(m);
    let height = message_row_height(m, &content, text_width, remaining);
    if m.reply_to_content.is_some() && remaining >= 2 && line_index + 1 == height {
        return None;
    }
    let lines = message_body_lines(m, &content, text_width, line_index + 1);
    proof {
        assert(line_models(lines@).len() == lines@.len());
    }
    if line_index >= lines.len() {
        return None;
    }
    let line_start = lines[line_index].0;
    let line_len = chars_of(lines[line_index].1.as_str()).len();
    let sender = sender_prefix_width(m);
    if column < SELECTED_ROW_SYMBOL_WIDTH || column - SELECTED_ROW_SYMBOL_WIDTH < sender {
        return None;
    }
    proof {
        assert(line_models(lines@)[line_index as int] == (line_start as int, lines@[line_index as int].1@));
        lemma_wrap_lines_within(
            display_content_spec(*m),
            crate::layout::first_line_width(*m, text_width as int),
            crate::layout::next_line_width(*m, text_width as int),
            line_index + 1,
        );
        assert(body_lines_spec(*m, text_width as int, line_index + 1)[line_index as int] == line_models(lines@)[line_index as int]);
    }
    let text = string_of(content.as_slice());
    link_in_wrapped_line_at_column(text.as_str(), line_start, line_start + line_len, column - SELECTED_ROW_SYMBOL_WIDTH - sender)
}

/// `new` is `s` with a menu on `target` opened at `(x, y)` when the target offers any
/// entry, else `s` itself.
pub open spec fn menu_opened_if_any(s: AppState, new: AppState, target: ContextMenuTarget, x: u16, y: u16) -> bool {
    if context_actions_spec(s, target).len() > 0 {
        menu_opened(s, new, target, x, y)
    } else {
        new == s
    }
}

/// A right click opens the context menu of the chat or message under it, focusing its
/// panel (and selecting the message); elsewhere inside the message panel it does nothing
/// more, and outside it is ignored.
pub open spec fn right_click_done(old: AppState, new: AppState, x: u16, y: u16, r: MouseClickOutcome) -> bool {
    match chat_at_spec(old, x, y) {
        Some(ci) => {
            &&& r is Handled
            &&& menu_opened_if_any(
                AppState { focused_panel: FocusedPanel::Chats, ..old },
                new,
                ContextMenuTarget::Chat { chat_id: old.chats@[ci as int].id },
                x,
                y,
            )
        },
        None => if inner_contains_spec(old.messages_area, x, y) {
            &&& r is Handled
            &&& match old.message_hit_spec(y - old.messages_area.y - 1) {
                Some(hit) => {
                    let m = old.messages@[hit.0];
                    menu_opened_if_any(
                        AppState { focused_panel: FocusedPanel::Messages, selected_message_index: hit.0 as usize, ..old },
                        new,
                        ContextMenuTarget::Message { chat_id: m.chat_id, message_id: m.id },
                        x,
                        y,
                    )
                },
                None => new == old,
            }
        } else {
            r is Ignored && new == old
        },
    }
}

/// A left click focuses the panel under it. On a folder or chat other than the selected
/// one it asks to open it; on another topic tab it selects the topic and asks to open
/// it; in the messages it selects the message under it and asks to open the link under
/// it, if any; in the input it moves the cursor there. Outside every panel it is ignored.
pub open spec fn left_click_done(old: AppState, new: AppState, x: u16, y: u16, r: MouseClickOutcome) -> bool {
    if old.folders_area.contains_spec(x, y) {
        &&& new == (AppState { focused_panel: FocusedPanel::Folders, ..old })
        &&& match tab_at(folder_label_widths(old.folders@), inside_offset(x, old.folders_area.x)) {
            Some(i) => if i == old.selected_folder_index {
                r is Handled
            } else {
                r == MouseClickOutcome::OpenFolderAt(i)
            },
            None => r is Handled,
        }
    } else if chat_at_spec(old, x, y) is Some {
        let ci = chat_at_spec(old, x, y)->0;
        &&& new == (AppState { focused_panel: FocusedPanel::Chats, ..old })
        &&& if ci == old.selected_chat_index {
            r is Handled
        } else {
            r == MouseClickOutcome::OpenChatAt(ci)
        }
    } else if old.chats_area.contains_spec(x, y) {
        r is Handled && new == (AppState { focused_panel: FocusedPanel::Chats, ..old })
    } else if old.thread_topics_area.contains_spec(x, y) {
        match tab_at(topic_label_widths(old.thread_topics@), inside_offset(x, old.thread_topics_area.x)) {
            Some(i) => if i == old.selected_thread_topic_index {
                r is Handled && new == (AppState { focused_panel: FocusedPanel::Messages, ..old })
            } else {
                &&& r == MouseClickOutcome::OpenThreadTopicAt(i)
                &&& new == (AppState {
                    focused_panel: FocusedPanel::Messages,
                    selected_thread_topic_index: if i < old.thread_topics@.len() { i } else { old.selected_thread_topic_index },
                    ..old
                })
            },
            None => r is Handled && new == (AppState { focused_panel: FocusedPanel::Messages, ..old }),
        }
    } else if inner_contains_spec(old.messages_area, x, y) {
        let focused = AppState { focused_panel: FocusedPanel::Messages, ..old };
        &&& new == match old.message_hit_spec(y - old.messages_area.y - 1) {
            Some(hit) => AppState { selected_message_index: hit.0 as usize, ..focused },
            None => focused,
        }
        &&& match link_at_click_spec(old, x, y) {
            Some(url) => r matches MouseClickOutcome::OpenLink(u) && u@ == url,
            None => r is Handled,
        }
    } else if old.input_area.contains_spec(x, y) {
        &&& r is Handled
        &&& new == (AppState {
            focused_panel: FocusedPanel::Input,
            input_cursor: cursor_for_column(old.input_buffer@, inside_offset(x, old.input_area.x)) as usize,
            ..old
        })
    } else {
        r is Ignored && new == old
    }
}

/// What a mouse event other than the wheel does. While the divider is dragged, a left
/// drag moves it and releasing the left button ends the drag. While a context menu is
/// open, moving highlights the entry under the pointer and a left click takes that entry
/// (closing the menu) or, off the entries, closes the menu. Otherwise a left press on the
/// divider starts a drag, a right press is `right_click_done`, a left press is
/// `left_click_done`, and anything else is ignored.
pub open spec fn click_done(old: AppState, new: AppState, ev: MouseEvent, r: MouseClickOutcome) -> bool {
    let (x, y) = (ev.column, ev.row);
    if old.split_drag_active {
        &&& r is Handled
        &&& new == match ev.kind {
            MouseEventKind::Drag(MouseButton::Left) => if old.screen_area.width > 0 {
                AppState { split_ratio: split_for_column(old.screen_area, x), ..old }
            } else {
                old
            },
            MouseEventKind::Up(MouseButton::Left) => AppState { split_drag_active: false, ..old },
            _ => old,
        }
    } else if old.context_menu is Some {
        let m = old.context_menu->0;
        match ev.kind {
            MouseEventKind::Moved => {
                &&& r is Handled
                &&& new == match menu_item_at_spec(m, x, y) {
                    Some(i) => AppState { context_menu: Some(ContextMenu { highlighted: i, ..m }), ..old },
                    None => old,
                }
            },
            MouseEventKind::Down(MouseButton::Left) => match menu_item_at_spec(m, x, y) {
                Some(i) => r == MouseClickOutcome::ContextMenuAction(m.target, m.actions@[i as int])
                    && new == (AppState { context_menu: None, ..old }),
                None => r is Handled && new == (AppState { context_menu: None, ..old }),
            },
            _ => r is Handled && new == old,
        }
    } else if ev.kind == MouseEventKind::Down(MouseButton::Left) && divider_contains_spec(old, x, y) {
        r is Handled && new == (AppState { split_drag_active: true, ..old })
    } else if ev.kind == MouseEventKind::Down(MouseButton::Right) {
        right_click_done(old, new, x, y, r)
    } else if ev.kind != MouseEventKind::Down(MouseButton::Left) {
        r is Ignored && new == old
    } else {
        left_click_done(old, new, x, y, r)
    }
}

/// Handles a mouse event other than the wheel (see `click_done`).
pub fn handle_mouse_click(state: &mut AppState, mouse_event: MouseEvent) -> (r: MouseClickOutcome)
    ensures
        old(state).wf() ==> final(state).wf(),
        click_done(*old(state), *final(state), mouse_event, r),
{
    let x = mouse_event.column;
    let y = mouse_event.row;
    if state.split_drag_active {
        match mouse_event.kind {
            MouseEventKind::Drag(MouseButton::Left) => state.drag_split_to(x),
            MouseEventKind::Up(MouseButton::Left) => state.end_split_drag(),
            _ => {},
        }
        return MouseClickOutcome::Handled;
    }
    if state.context_menu().is_some() {
        match mouse_event.kind {
            MouseEventKind::Moved => state.hover_context_menu_at(x, y),
            MouseEventKind::Down(MouseButton::Left) => {
                if let Some(index) = state.context_menu_item_at(x, y) {
                    if let Some((target, action)) = state.take_context_menu_action(index) {
                        return MouseClickOutcome::ContextMenuAction(target, action);
                    }
                } else {
                    state.close_context_menu();
                }
            },
            _ => {},
        }
        return MouseClickOutcome::Handled;
    }
    let left_down = match mouse_event.kind {
        MouseEventKind::Down(MouseButton::Left) => true,
        _ => false,
    };
    let right_down = match mouse_event.kind {
        MouseEventKind::Down(MouseButton::Right) => true,
        _ => false,
    };
    if left_down && state.split_divider_contains(x, y) {
        state.begin_split_drag();
        return MouseClickOutcome::Handled;
    }
    if right_down {
        if let Some(chat_index) = chat_index_at(state, x, y) {
            state.focused_panel = FocusedPanel::Chats;
            let chat_id = state.chats[chat_index].id;
            state.open_context_menu(ContextMenuTarget::Chat { chat_id }, x, y);
            return MouseClickOutcome::Handled;
        }
        if panel_inner_contains(state.messages_area, x, y) {
            let row = (y - state.messages_area.y - 1) as usize;
            if let Some(message_index) = state.message_index_at_visible_row(row) {
                state.focused_panel = FocusedPanel::Messages;
                state.selected_message_index = message_index;
                let chat_id = state.messages[message_index].chat_id;
                let message_id = state.messages[message_index].id;
                state.open_context_menu(ContextMenuTarget::Message { chat_id, message_id }, x, y);
            }
            return MouseClickOutcome::Handled;
        }
        return MouseClickOutcome::Ignored;
    }
    if !left_down {
        return MouseClickOutcome::Ignored;
    }
    if state.folders_area.contains(x, y) {
        state.focused_panel = FocusedPanel::Folders;
        let column = inside_offset_exec(x, state.folders_area.x);
        match state.folder_index_at_visible_column(column) {
            Some(folder_index) => if folder_index == state.selected_folder_index {
                MouseClickOutcome::Handled
            } else {
                MouseClickOutcome::OpenFolderAt(folder_index)
            },
            None => MouseClickOutcome::Handled,
        }
    } else if let Some(chat_index) = chat_index_at(state, x, y) {
        state.focused_panel = FocusedPanel::Chats;
        if chat_index == state.selected_chat_index {
            MouseClickOutcome::Handled
        } else {
            MouseClickOutcome::OpenChatAt(chat_index)
        }
    } else if state.chats_area.contains(x, y) {
        state.focused_panel = FocusedPanel::Chats;
        MouseClickOutcome::Handled
    } else if state.thread_topics_area.contains(x, y) {
        state.focused_panel = FocusedPanel::Messages;
        let column = inside_offset_exec(x, state.thread_topics_area.x);
        match state.thread_topic_index_at_visible_column(column) {
            Some(topic_index) => if topic_index == state.selected_thread_topic_index {
                MouseClickOutcome::Handled
            } else {
                state.select_thread_topic_at(topic_index);
                MouseClickOutcome::OpenThreadTopicAt(topic_index)
            },
            None => MouseClickOutcome::Handled,
        }
    } else if panel_inner_contains(state.messages_area, x, y) {
        let clicked_link = message_link_at_click(state, x, y);
        state.focused_panel = FocusedPanel::Messages;
        let row = (y - state.messages_area.y - 1) as usize;
        state.select_message_at_visible_row(row);
        match clicked_link {
            Some(url) => MouseClickOutcome::OpenLink(url),
            None => MouseClickOutcome::Handled,
        }
    } else if state.input_area.contains(x, y) {
        state.focused_panel = FocusedPanel::Input;
        let column = inside_offset_exec(x, state.input_area.x);
        state.move_input_cursor_to_visible_column(column);
        MouseClickOutcome::Handled
    } else {
        MouseClickOutcome::Ignored
    }
}

} // verus!
