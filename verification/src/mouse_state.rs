//! The mouse-facing part of the client state: the context menu, dragging the divider
//! between chats and messages, scrolling the chat list, and what lies under a cell of the
//! last frame.

use crate::downloads::download_path_spec;
use crate::layout::{
    cursor_at_column, cursor_for_column, inner_contains_spec, list_text_width,
    list_text_width_spec, message_display_content, message_row_height, panel_inner_contains,
    row_height_spec, tab_at, tab_index_at_column, Rect,
};
use crate::links::{first_url, links_spec};
use crate::mouse_events::{ContextMenu, ContextMenuAction, ContextMenuTarget};
use crate::state::{AppState, MAX_SPLIT_RATIO, MIN_SPLIT_RATIO};
use crate::text::{chars_of, display_width, trim_chars, trim_spec, unicode_str_width};
use crate::types::{Chat, Folder, Message, MessageStatus, ThreadTopic};
use vstd::prelude::*;

verus! {

/// Columns of a context menu, its border included.
pub const CONTEXT_MENU_WIDTH: u16 = 24;

/// Rows of one chat in the chat list.
pub const CHAT_ROW_HEIGHT: u16 = 2;

/// The entries of a chat's context menu: open it, mark it read when it has unread
/// messages, copy its name.
pub open spec fn chat_actions_spec(c: Chat) -> Seq<ContextMenuAction> {
    if c.unread_count > 0 {
        seq![ContextMenuAction::OpenChat, ContextMenuAction::MarkChatRead, ContextMenuAction::CopyChatName]
    } else {
        seq![ContextMenuAction::OpenChat, ContextMenuAction::CopyChatName]
    }
}

/// The entries of a message's context menu, in this order: reply; edit when it can be
/// edited; copy when it has text; open its first link when it has one; save its media when
/// that can be downloaded; open its saved file when `saved`; and, when it can be deleted,
/// dismiss it after a failed send or delete it otherwise.
pub open spec fn message_actions_spec(m: Message, saved: bool) -> Seq<ContextMenuAction> {
    seq![ContextMenuAction::ReplyMessage]
        + (if m.can_edit { seq![ContextMenuAction::EditMessage] } else { Seq::empty() })
        + (if trim_spec(m.content@).len() > 0 { seq![ContextMenuAction::CopyMessageText] } else { Seq::empty() })
        + (if links_spec(m.content@).len() > 0 { seq![ContextMenuAction::OpenMessageLink] } else { Seq::empty() })
        + (match m.media {
            Some(media) => if media.kind.is_downloadable_spec() {
                seq![ContextMenuAction::SaveMessageMedia]
            } else {
                Seq::empty()
            },
            None => Seq::empty(),
        })
        + (if saved { seq![ContextMenuAction::OpenDownloadedMedia] } else { Seq::empty() })
        + (if m.can_delete {
            if m.status == MessageStatus::Failed {
                seq![ContextMenuAction::DismissFailedSend]
            } else {
                seq![ContextMenuAction::DeleteMessage]
            }
        } else {
            Seq::empty()
        })
}

/// The entries of a message's context menu (see `message_actions_spec`).
#[verifier::rlimit(50)]
#[verifier::spinoff_prover]
pub fn message_actions(m: &Message, saved: bool) -> (r: Vec<ContextMenuAction>)
    ensures
        r@ == message_actions_spec(*m, saved),
        r@.len() <= 7,
{
    let mut r: Vec<ContextMenuAction> = Vec::new();
    r.push(ContextMenuAction::ReplyMessage);
    if m.can_edit {
        r.push(ContextMenuAction::EditMessage);
    }
    if trim_chars(&chars_of(m.content.as_str())).len() > 0 {
        r.push(ContextMenuAction::CopyMessageText);
    }
    if first_url(m.content.as_str()).is_some() {
        r.push(ContextMenuAction::OpenMessageLink);
    }
    match &m.media {
        Some(media) => {
            if media.kind.is_downloadable() {
                r.push(ContextMenuAction::SaveMessageMedia);
            }
        },
        None => {},
    }
    if saved {
        r.push(ContextMenuAction::OpenDownloadedMedia);
    }
    if m.can_delete {
        if m.status == MessageStatus::Failed {
            r.push(ContextMenuAction::DismissFailedSend);
        } else {
            r.push(ContextMenuAction::DeleteMessage);
        }
    }
    assert(r@ =~= message_actions_spec(*m, saved));
    r
}

/// The first of `chats[k..]` with this id.
pub open spec fn chat_position(chats: Seq<Chat>, chat_id: i64, k: int) -> Option<int>
    decreases chats.len() - k,
{
    if k < 0 || k >= chats.len() {
        None
    } else if chats[k].id == chat_id {
        Some(k)
    } else {
        chat_position(chats, chat_id, k + 1)
    }
}

/// The first of `messages[k..]` with this chat and id.
pub open spec fn message_position(messages: Seq<Message>, chat_id: i64, message_id: i32, k: int) -> Option<int>
    decreases messages.len() - k,
{
    if k < 0 || k >= messages.len() {
        None
    } else if messages[k].chat_id == chat_id && messages[k].id == message_id {
        Some(k)
    } else {
        message_position(messages, chat_id, message_id, k + 1)
    }
}

pub proof fn lemma_chat_position_range(chats: Seq<Chat>, chat_id: i64, k: int)
    ensures
        chat_position(chats, chat_id, k) matches Some(i) ==> k <= i < chats.len() && chats[i].id == chat_id,
    decreases chats.len() - k,
{
    if 0 <= k < chats.len() && chats[k].id != chat_id {
        lemma_chat_position_range(chats, chat_id, k + 1);
    }
}

pub proof fn lemma_message_position_range(messages: Seq<Message>, chat_id: i64, message_id: i32, k: int)
    ensures
        message_position(messages, chat_id, message_id, k) matches Some(i) ==> k <= i < messages.len()
            && messages[i].chat_id == chat_id && messages[i].id == message_id,
    decreases messages.len() - k,
{
    if 0 <= k < messages.len() && !(messages[k].chat_id == chat_id && messages[k].id == message_id) {
        lemma_message_position_range(messages, chat_id, message_id, k + 1);
    }
}

/// The entries a context menu on `target` offers; none when the target is not loaded.
pub open spec fn context_actions_spec(s: AppState, target: ContextMenuTarget) -> Seq<ContextMenuAction> {
    match target {
        ContextMenuTarget::Chat { chat_id } => match chat_position(s.chats@, chat_id, 0) {
            Some(i) => chat_actions_spec(s.chats@[i]),
            None => Seq::empty(),
        },
        ContextMenuTarget::Message { chat_id, message_id } => match message_position(s.messages@, chat_id, message_id, 0) {
            Some(i) => message_actions_spec(
                s.messages@[i],
                download_path_spec(s.downloaded_media@, chat_id, message_id) is Some,
            ),
            None => Seq::empty(),
        },
    }
}

/// Where a menu of `entries` entries opened at `(x, y)` is drawn: its top-left corner at
/// the click, one row per entry inside a border.
pub open spec fn menu_area_spec(x: u16, y: u16, entries: nat) -> Rect {
    Rect { x, y, width: CONTEXT_MENU_WIDTH, height: (entries + 2) as u16 }
}

/// The entry of `menu` drawn at `(x, y)`.
pub open spec fn menu_item_at_spec(menu: ContextMenu, x: u16, y: u16) -> Option<usize> {
    if inner_contains_spec(menu.area, x, y) && y - menu.area.y - 1 < menu.actions@.len() {
        Some((y - menu.area.y - 1) as usize)
    } else {
        None
    }
}

/// `new` is `s` with a menu on `target` opened at `(x, y)`, its first entry highlighted.
pub open spec fn menu_opened(s: AppState, new: AppState, target: ContextMenuTarget, x: u16, y: u16) -> bool {
    &&& new.context_menu matches Some(m)
    &&& m.target == target
    &&& m.actions@ == context_actions_spec(s, target)
    &&& m.highlighted == 0
    &&& m.area == menu_area_spec(x, y, m.actions@.len())
    &&& new == (AppState { context_menu: new.context_menu, ..s })
}

/// The highlight moved by `delta` entries, stopping at the first and the last.
pub open spec fn moved_highlight(highlighted: usize, delta: i32, len: nat) -> usize {
    let target = highlighted + delta;
    if len == 0 || target <= 0 {
        0
    } else if target >= len {
        (len - 1) as usize
    } else {
        target as usize
    }
}

/// The scroll offset moved by `delta` rows, kept between 0 and the last of `count` rows.
pub open spec fn scrolled_offset(offset: usize, delta: isize, count: nat) -> usize {
    let target = offset + delta;
    if count == 0 || target <= 0 {
        0
    } else if target >= count {
        (count - 1) as usize
    } else {
        target as usize
    }
}

/// The split, in percent, for the divider dragged to column `x` of `screen`: the share of
/// the screen left of `x`, to the nearest step of 5, kept inside the split bounds.
pub open spec fn split_for_column(screen: Rect, x: u16) -> u16 {
    let left: int = if x > screen.x { x - screen.x } else { 0 };
    let percent: int = left * 100 / (screen.width as int);
    let rounded: int = (percent + 2) / 5 * 5;
    if rounded < MIN_SPLIT_RATIO {
        MIN_SPLIT_RATIO
    } else if rounded > MAX_SPLIT_RATIO {
        MAX_SPLIT_RATIO
    } else {
        rounded as u16
    }
}

/// The state with the shown chat list scrolled by `delta` rows of chats: the search
/// results while a search is open, else the whole list.
pub open spec fn chats_scrolled(s: AppState, delta: isize) -> AppState {
    if s.chat_search is Some {
        AppState {
            chat_search_scroll_offset: scrolled_offset(s.chat_search_scroll_offset, delta, s.display_indices_spec().len()),
            ..s
        }
    } else {
        AppState { chat_scroll_offset: scrolled_offset(s.chat_scroll_offset, delta, s.chats@.len()), ..s }
    }
}

/// Whether `(x, y)` is on the divider: the right border column of the chat list.
pub open spec fn divider_contains_spec(s: AppState, x: u16, y: u16) -> bool {
    s.chats_area.contains_spec(x, y) && x + 1 == s.chats_area.right()
}

impl AppState {
    /// The open context menu.
    pub fn context_menu(&self) -> (r: Option<&ContextMenu>)
        ensures
            match r {
                Some(m) => self.context_menu == Some(*m),
                None => self.context_menu is None,
            },
    {
        self.context_menu.as_ref()
    }

    pub fn close_context_menu(&mut self)
        ensures
            old(self).wf() ==> final(self).wf(),
            *final(self) == (AppState { context_menu: None, ..*old(self) }),
    {
        self.context_menu = None;
    }

    /// The loaded chat with this id.
    pub fn chat_index_by_id(&self, chat_id: i64) -> (r: Option<usize>)
        ensures
            match r {
                Some(i) => chat_position(self.chats@, chat_id, 0) == Some(i as int),
                None => chat_position(self.chats@, chat_id, 0) is None,
            },
    {
        let mut k: usize = 0;
        while k < self.chats.len()
            invariant
                k <= self.chats@.len(),
                chat_position(self.chats@, chat_id, 0) == chat_position(self.chats@, chat_id, k as int),
            decreases self.chats.len() - k,
        {
            if self.chats[k].id == chat_id {
                return Some(k);
            }
            k += 1;
        }
        None
    }

    /// The loaded message with this chat and id.
    pub fn message_index_by_identity(&self, chat_id: i64, message_id: i32) -> (r: Option<usize>)
        ensures
            match r {
                Some(i) => message_position(self.messages@, chat_id, message_id, 0) == Some(i as int),
                None => message_position(self.messages@, chat_id, message_id, 0) is None,
            },
    {
        let mut k: usize = 0;
        while k < self.messages.len()
            invariant
                k <= self.messages@.len(),
                message_position(self.messages@, chat_id, message_id, 0)
                    == message_position(self.messages@, chat_id, message_id, k as int),
            decreases self.messages.len() - k,
        {
            if self.messages[k].chat_id == chat_id && self.messages[k].id == message_id {
                return Some(k);
            }
            k += 1;
        }
        None
    }

    /// The entries a context menu on `target` offers (see `context_actions_spec`).
    pub fn context_actions_for_target(&self, target: ContextMenuTarget) -> (r: Vec<ContextMenuAction>)
        ensures
            r@ == context_actions_spec(*self, target),
            r@.len() <= 7,
    {
        let mut r: Vec<ContextMenuAction> = Vec::new();
        match target {
            ContextMenuTarget::Chat { chat_id } => {
                if let Some(i) = self.chat_index_by_id(chat_id) {
                    proof {
                        lemma_chat_position_range(self.chats@, chat_id, 0);
                    }
                    r.push(ContextMenuAction::OpenChat);
                    if self.chats[i].unread_count > 0 {
                        r.push(ContextMenuAction::MarkChatRead);
                    }
                    r.push(ContextMenuAction::CopyChatName);
                    assert(r@ =~= chat_actions_spec(self.chats@[i as int]));
                } else {
                    assert(r@ =~= Seq::<ContextMenuAction>::empty());
                }
            },
            ContextMenuTarget::Message { chat_id, message_id } => {
                if let Some(i) = self.message_index_by_identity(chat_id, message_id) {
                    proof {
                        lemma_message_position_range(self.messages@, chat_id, message_id, 0);
                    }
                    let saved = self.downloaded_media_path(chat_id, message_id).is_some();
                    r = message_actions(&self.messages[i], saved);
                } else {
                    assert(r@ =~= Seq::<ContextMenuAction>::empty());
                }
            },
        }
        r
    }

    /// Opens a context menu on `target` at `(x, y)` when the target offers any entry;
    /// otherwise nothing changes. Reports whether a menu opened.
    pub fn open_context_menu(&mut self, target: ContextMenuTarget, x: u16, y: u16) -> (opened: bool)
        ensures
            old(self).wf() ==> final(self).wf(),
            opened == (context_actions_spec(*old(self), target).len() > 0),
            opened ==> menu_opened(*old(self), *final(self), target, x, y),
            !opened ==> *final(self) == *old(self),
    {
        let actions = self.context_actions_for_target(target);
        if actions.len() == 0 {
            return false;
        }
        let height: u16 = actions.len() as u16 + 2;
        self.context_menu = Some(ContextMenu {
            target,
            actions,
            highlighted: 0,
            area: Rect::new(x, y, CONTEXT_MENU_WIDTH, height),
        });
        true
    }

    /// The menu entry drawn at `(x, y)`.
    pub fn context_menu_item_at(&self, x: u16, y: u16) -> (r: Option<usize>)
        ensures
            r == match self.context_menu {
                Some(m) => menu_item_at_spec(m, x, y),
                None => None,
            },
    {
        match &self.context_menu {
            Some(menu) => {
                if panel_inner_contains(menu.area, x, y) && ((y - menu.area.y - 1) as usize) < menu.actions.len() {
                    Some((y - menu.area.y - 1) as usize)
                } else {
                    None
                }
            },
            None => None,
        }
    }

    /// Highlights the menu entry under the pointer, if any.
    pub fn hover_context_menu_at(&mut self, x: u16, y: u16)
        ensures
            old(self).wf() ==> final(self).wf(),
            match old(self).context_menu {
                Some(m) => match menu_item_at_spec(m, x, y) {
                    Some(i) => *final(self) == (AppState {
                        context_menu: Some(ContextMenu { highlighted: i, ..m }),
                        ..*old(self)
                    }),
                    None => *final(self) == *old(self),
                },
                None => *final(self) == *old(self),
            },
    {
        if let Some(i) = self.context_menu_item_at(x, y) {
            if let Some(menu) = &mut self.context_menu {
                menu.highlighted = i;
            }
        }
    }

    /// Moves the menu highlight by `delta` entries, stopping at the first and last.
    pub fn move_context_menu_highlight(&mut self, delta: i32)
        ensures
            old(self).wf() ==> final(self).wf(),
            match old(self).context_menu {
                Some(m) => *final(self) == (AppState {
                    context_menu: Some(ContextMenu { highlighted: moved_highlight(m.highlighted, delta, m.actions@.len()), ..m }),
                    ..*old(self)
                }),
                None => *final(self) == *old(self),
            },
    {
        if let Some(menu) = &mut self.context_menu {
            let len = menu.actions.len();
            let target: i128 = menu.highlighted as i128 + delta as i128;
            menu.highlighted = if len == 0 || target <= 0 {
                0
            } else if target >= len as i128 {
                len - 1
            } else {
                target as usize
            };
        }
    }

    /// Takes entry `index` of the open menu: the menu closes and the entry, with the
    /// menu's target, is returned. Without a menu or such an entry nothing changes.
    pub fn take_context_menu_action(&mut self, index: usize) -> (r: Option<(ContextMenuTarget, ContextMenuAction)>)
        ensures
            old(self).wf() ==> final(self).wf(),
            match old(self).context_menu {
                Some(m) => if index < m.actions@.len() {
                    &&& r == Some((m.target, m.actions@[index as int]))
                    &&& *final(self) == (AppState { context_menu: None, ..*old(self) })
                } else {
                    r is None && *final(self) == *old(self)
                },
                None => r is None && *final(self) == *old(self),
            },
    {
        let taken = match &self.context_menu {
            Some(menu) => if index < menu.actions.len() {
                Some((menu.target, menu.actions[index]))
            } else {
                None
            },
            None => None,
        };
        if taken.is_some() {
            self.context_menu = None;
        }
        taken
    }

    /// Takes the highlighted entry of the open menu (see `take_context_menu_action`).
    pub fn take_highlighted_context_menu_action(&mut self) -> (r: Option<(ContextMenuTarget, ContextMenuAction)>)
        ensures
            old(self).wf() ==> final(self).wf(),
            match old(self).context_menu {
                Some(m) => if m.highlighted < m.actions@.len() {
                    &&& r == Some((m.target, m.actions@[m.highlighted as int]))
                    &&& *final(self) == (AppState { context_menu: None, ..*old(self) })
                } else {
                    r is None && *final(self) == *old(self)
                },
                None => r is None && *final(self) == *old(self),
            },
    {
        let index = match &self.context_menu {
            Some(menu) => menu.highlighted,
            None => 0,
        };
        self.take_context_menu_action(index)
    }
}

/// Rows of messages inside the border of the message panel.
pub open spec fn message_capacity_spec(area: Rect) -> int {
    if area.height >= 2 {
        area.height - 2
    } else {
        0
    }
}

/// The message drawn at `row` of the message panel, looking from message `i`, which
/// starts at row `current`: its index and its first row. Each message takes the rows
/// `row_height_spec` gives it; the panel ends after `capacity` rows.
pub open spec fn message_hit_from(messages: Seq<Message>, text_width: int, capacity: int, row: int, i: int, current: int) -> Option<(int, int)>
    decreases messages.len() - i,
{
    if i < 0 || i >= messages.len() {
        None
    } else {
        let h = row_height_spec(messages[i], text_width, capacity - current);
        if row < current + h {
            Some((i, current))
        } else if current + h >= capacity {
            None
        } else {
            message_hit_from(messages, text_width, capacity, row, i + 1, current + h)
        }
    }
}

pub proof fn lemma_message_hit_range(messages: Seq<Message>, text_width: int, capacity: int, row: int, i: int, current: int)
    requires
        i >= 0,
        0 <= current <= capacity,
        current <= row,
    ensures
        message_hit_from(messages, text_width, capacity, row, i, current) matches Some(hit) ==> i <= hit.0 < messages.len()
            && current <= hit.1 <= row && hit.1 <= capacity,
    decreases messages.len() - i,
{
    if 0 <= i < messages.len() {
        let h = row_height_spec(messages[i], text_width, capacity - current);
        if !(row < current + h) && !(current + h >= capacity) {
            assert(h >= 0) by {
                crate::layout::lemma_body_lines_bound(messages[i], text_width, capacity - current);
            }
            lemma_message_hit_range(messages, text_width, capacity, row, i + 1, current + h);
        }
    }
}

/// Folder tab labels: the folder names.
pub open spec fn folder_label_widths(folders: Seq<Folder>) -> Seq<usize> {
    folders.map_values(|f: Folder| unicode_str_width(f.name@))
}

/// Topic tab labels: the topic titles.
pub open spec fn topic_label_widths(topics: Seq<ThreadTopic>) -> Seq<usize> {
    topics.map_values(|t: ThreadTopic| unicode_str_width(t.title@))
}

impl AppState {
    /// The offset of the chat list as shown: of the search results while a search is open.
    pub open spec fn chat_display_offset(&self) -> usize {
        if self.chat_search is Some {
            self.chat_search_scroll_offset
        } else {
            self.chat_scroll_offset
        }
    }

    /// The message drawn at `row` of the message panel, with its first row.
    pub open spec fn message_hit_spec(&self, row: int) -> Option<(int, int)> {
        message_hit_from(
            self.messages@,
            list_text_width_spec(self.messages_area.width),
            message_capacity_spec(self.messages_area),
            row,
            self.message_scroll_offset as int,
            0,
        )
    }

    /// Scrolls the shown chat list by `delta` rows of chats without changing the
    /// selection, stopping at the first and the last shown chat.
    pub fn scroll_chats(&mut self, delta: isize)
        ensures
            old(self).wf() ==> final(self).wf(),
            *final(self) == chats_scrolled(*old(self), delta),
    {
        let searching = self.chat_search_active();
        let count: usize = if searching {
            self.chat_display_indices().len()
        } else {
            self.chats.len()
        };
        let offset: usize = if searching { self.chat_search_scroll_offset } else { self.chat_scroll_offset };
        let target: i128 = offset as i128 + delta as i128;
        let next: usize = if count == 0 || target <= 0 {
            0
        } else if target >= count as i128 {
            count - 1
        } else {
            target as usize
        };
        if searching {
            self.chat_search_scroll_offset = next;
        } else {
            self.chat_scroll_offset = next;
        }
    }

    /// The state with the shown chat list scrolled by `delta` rows of chats: the search
/// results while a search is open, else the whole list.
pub open spec fn chats_scrolled(s: AppState, delta: isize) -> AppState {
    if s.chat_search is Some {
        AppState {
            chat_search_scroll_offset: scrolled_offset(s.chat_search_scroll_offset, delta, s.display_indices_spec().len()),
            ..s
        }
    } else {
        AppState { chat_scroll_offset: scrolled_offset(s.chat_scroll_offset, delta, s.chats@.len()), ..s }
    }
}

/// Whether `(x, y)` is on the divider between the chats and the messages.
    pub fn split_divider_contains(&self, x: u16, y: u16) -> (r: bool)
        ensures
            r == divider_contains_spec(*self, x, y),
    {
        let right: u16 = self.chats_area.x.saturating_add(self.chats_area.width);
        self.chats_area.contains(x, y) && x as u32 + 1 == right as u32
    }

    /// Starts dragging the divider.
    pub fn begin_split_drag(&mut self)
        ensures
            old(self).wf() ==> final(self).wf(),
            *final(self) == (AppState { split_drag_active: true, ..*old(self) }),
    {
        self.split_drag_active = true;
    }

    /// Stops dragging the divider.
    pub fn end_split_drag(&mut self)
        ensures
            old(self).wf() ==> final(self).wf(),
            *final(self) == (AppState { split_drag_active: false, ..*old(self) }),
    {
        self.split_drag_active = false;
    }

    /// Moves the divider to column `x` (see `split_for_column`); with an empty screen
    /// nothing changes.
    pub fn drag_split_to(&mut self, x: u16)
        ensures
            old(self).wf() ==> final(self).wf(),
            old(self).screen_area.width > 0 ==> *final(self) == (AppState {
                split_ratio: split_for_column(old(self).screen_area, x),
                ..*old(self)
            }),
            old(self).screen_area.width == 0 ==> *final(self) == *old(self),
    {
        let width = self.screen_area.width;
        if width == 0 {
            return;
        }
        let left: u32 = if x > self.screen_area.x { (x - self.screen_area.x) as u32 } else { 0 };
        let percent: u32 = left * 100 / (width as u32);
        let rounded: u32 = (percent + 2) / 5 * 5;
        self.split_ratio = if rounded < MIN_SPLIT_RATIO as u32 {
            MIN_SPLIT_RATIO
        } else if rounded > MAX_SPLIT_RATIO as u32 {
            MAX_SPLIT_RATIO
        } else {
            rounded as u16
        };
    }

    /// The folder tab at column `column` of the folder row.
    pub fn folder_index_at_visible_column(&self, column: usize) -> (r: Option<usize>)
        ensures
            r == tab_at(folder_label_widths(self.folders@), column as int),
    {
        let mut widths: Vec<usize> = Vec::new();
        let mut k: usize = 0;
        while k < self.folders.len()
            invariant
                k <= self.folders@.len(),
                widths@ == folder_label_widths(self.folders@.subrange(0, k as int)),
            decreases self.folders.len() - k,
        {
            let name = chars_of(self.folders[k].name.as_str());
            widths.push(display_width(name.as_slice()));
            k += 1;
            assert(widths@ =~= folder_label_widths(self.folders@.subrange(0, k as int)));
        }
        assert(self.folders@.subrange(0, self.folders@.len() as int) =~= self.folders@);
        tab_index_at_column(&widths, column)
    }

    /// The topic tab at column `column` of the topic row.
    pub fn thread_topic_index_at_visible_column(&self, column: usize) -> (r: Option<usize>)
        ensures
            r == tab_at(topic_label_widths(self.thread_topics@), column as int),
    {
        let mut widths: Vec<usize> = Vec::new();
        let mut k: usize = 0;
        while k < self.thread_topics.len()
            invariant
                k <= self.thread_topics@.len(),
                widths@ == topic_label_widths(self.thread_topics@.subrange(0, k as int)),
            decreases self.thread_topics.len() - k,
        {
            let title = chars_of(self.thread_topics[k].title.as_str());
            widths.push(display_width(title.as_slice()));
            k += 1;
            assert(widths@ =~= topic_label_widths(self.thread_topics@.subrange(0, k as int)));
        }
        assert(self.thread_topics@.subrange(0, self.thread_topics@.len() as int) =~= self.thread_topics@);
        tab_index_at_column(&widths, column)
    }

    /// The message drawn at `row` of the message panel, with its first row.
    pub fn message_row_at(&self, row: usize) -> (r: Option<(usize, usize)>)
        ensures
            match r {
                Some(hit) => self.message_hit_spec(row as int) == Some((hit.0 as int, hit.1 as int)),
                None => self.message_hit_spec(row as int) is None,
            },
    {
        let text_width = list_text_width(self.messages_area.width);
        let capacity: usize = if self.messages_area.height >= 2 { (self.messages_area.height - 2) as usize } else { 0 };
        let mut i: usize = self.message_scroll_offset;
        let mut current: usize = 0;
        while i < self.messages.len()
            invariant
                current <= capacity,
                capacity == message_capacity_spec(self.messages_area),
                text_width == list_text_width_spec(self.messages_area.width),
                self.message_hit_spec(row as int) == message_hit_from(
                    self.messages@,
                    text_width as int,
                    capacity as int,
                    row as int,
                    i as int,
                    current as int,
                ),
            decreases self.messages.len() - i,
        {
            let m = &self.messages[i];
            let content = message_display_content(m);
            let h = message_row_height(m, &content, text_width, capacity - current);
            if row < current + h {
                return Some((i, current));
            }
            if current + h >= capacity {
                return None;
            }
            current = current + h;
            i = i + 1;
        }
        None
    }

    /// The message drawn at `row` of the message panel.
    pub fn message_index_at_visible_row(&self, row: usize) -> (r: Option<usize>)
        ensures
            match r {
                Some(i) => self.message_hit_spec(row as int) matches Some(hit) && hit.0 == i,
                None => self.message_hit_spec(row as int) is None,
            },
            r matches Some(i) ==> i < self.messages@.len(),
    {
        proof {
            lemma_message_hit_range(
                self.messages@,
                list_text_width_spec(self.messages_area.width),
                message_capacity_spec(self.messages_area),
                row as int,
                self.message_scroll_offset as int,
                0,
            );
        }
        match self.message_row_at(row) {
            Some(hit) => Some(hit.0),
            None => None,
        }
    }

    /// Selects the message drawn at `row` of the message panel, if any.
    pub fn select_message_at_visible_row(&mut self, row: usize)
        ensures
            old(self).wf() ==> final(self).wf(),
            match old(self).message_hit_spec(row as int) {
                Some(hit) => *final(self) == (AppState { selected_message_index: hit.0 as usize, ..*old(self) }),
                None => *final(self) == *old(self),
            },
    {
        if let Some(i) = self.message_index_at_visible_row(row) {
            self.selected_message_index = i;
        }
    }

    /// Puts the input cursor where a click at `column` of the input lands (see
    /// `cursor_for_column`).
    pub fn move_input_cursor_to_visible_column(&mut self, column: usize)
        ensures
            old(self).wf() ==> final(self).wf(),
            *final(self) == (AppState {
                input_cursor: cursor_for_column(old(self).input_buffer@, column as int) as usize,
                ..*old(self)
            }),
    {
        self.input_cursor = cursor_at_column(&self.input_buffer, column);
    }

    /// Marks the loaded chat with this id as read (no unread messages left); reports
    /// whether such a chat is loaded.
    pub fn mark_chat_read_locally(&mut self, chat_id: i64) -> (found: bool)
        ensures
            old(self).wf() ==> final(self).wf(),
            match chat_position(old(self).chats@, chat_id, 0) {
                Some(i) => found && *final(self) == (AppState {
                    chats: final(self).chats,
                    ..*old(self)
                }) && final(self).chats@ == old(self).chats@.update(i, Chat { unread_count: 0, ..old(self).chats@[i] }),
                None => !found && *final(self) == *old(self),
            },
    {
        match self.chat_index_by_id(chat_id) {
            Some(i) => {
                proof {
                    lemma_chat_position_range(self.chats@, chat_id, 0);
                }
                let mut chat = self.chats[i].copy();
                chat.unread_count = 0;
                self.chats.set(i, chat);
                true
            },
            None => false,
        }
    }

    /// Selects the loaded message with this chat and id; reports whether there is one.
    pub fn select_message_by_identity(&mut self, chat_id: i64, message_id: i32) -> (found: bool)
        ensures
            old(self).wf() ==> final(self).wf(),
            match message_position(old(self).messages@, chat_id, message_id, 0) {
                Some(i) => found && *final(self) == (AppState { selected_message_index: i as usize, ..*old(self) }),
                None => !found && *final(self) == *old(self),
            },
    {
        match self.message_index_by_identity(chat_id, message_id) {
            Some(i) => {
                proof {
                    lemma_message_position_range(self.messages@, chat_id, message_id, 0);
                }
                self.selected_message_index = i;
                true
            },
            None => false,
        }
    }
}

} // verus!
