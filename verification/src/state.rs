//! The client's state: what is loaded, what is selected and focused, and what the user is
//! typing. Every operation keeps the selections inside the loaded lists (see `wf`).

use crate::layout::Rect;
use crate::mouse_events::ContextMenu;
use crate::types::{Chat, Folder, Message, MessageStatus, ThreadTopic, ALL_FOLDER_ID, OWN_SENDER_NAME};
use vstd::prelude::*;

verus! {

/// Share of the width given to the chat list, in percent.
pub const DEFAULT_SPLIT_RATIO: u16 = 30;
pub const MIN_SPLIT_RATIO: u16 = 20;
pub const MAX_SPLIT_RATIO: u16 = 80;
/// How much one `<` or `>` moves the split, in percent.
pub const SPLIT_RATIO_STEP: u16 = 5;
/// Messages moved by one page when the view has not reported its height.
pub const DEFAULT_MESSAGE_PAGE_SIZE: usize = 10;

pub const NO_CHAT_SELECTED_ERROR: &'static str = "No chat selected";
pub const MESSAGE_DELETED_STATUS: &'static str = "Message deleted";

/// The panel that receives keyboard input.
#[derive(Debug, Clone, Copy, PartialEq, Eq, Structural)]
pub enum FocusedPanel {
    Folders,
    Chats,
    Messages,
    Input,
}

/// Progress of loading the selected conversation.
#[derive(Debug, Clone, Copy, PartialEq, Eq, Structural)]
pub enum ConversationLoadStatus {
    Idle,
    Loading,
    Loaded,
    Failed,
}

/// A message the user asked to delete and must confirm.
#[derive(Debug, Clone, Copy, PartialEq, Eq, Structural)]
pub struct DeleteConfirmation {
    pub chat_id: i64,
    pub message_id: i32,
}

/// What submitting the input does.
#[derive(Debug, Clone)]
pub enum MessageSubmitAction {
    Edit { chat_id: i64, message_id: i32, content: String },
    Reply { chat_id: i64, thread_top_message_id: Option<i32>, message_id: i32, content: String },
    Send { chat_id: i64, thread_top_message_id: Option<i32>, content: String },
}

/// Where the media of a message was saved.
#[derive(Debug, Clone)]
pub struct DownloadRecord {
    pub chat_id: i64,
    pub message_id: i32,
    pub path: String,
}

/// Chats last loaded for one folder filter.
#[derive(Debug, Clone)]
pub struct FolderChatCache {
    pub folder_id: Option<i32>,
    pub chats: Vec<Chat>,
}

/// The client's state.
#[derive(Debug, Clone)]
pub struct AppState {
    pub folders: Vec<Folder>,
    pub selected_folder_index: usize,
    pub chats: Vec<Chat>,
    pub selected_chat_index: usize,
    pub chat_scroll_offset: usize,
    pub messages: Vec<Message>,
    pub selected_message_index: usize,
    pub message_scroll_offset: usize,
    pub message_page_size: usize,
    pub thread_topics: Vec<ThreadTopic>,
    pub selected_thread_topic_index: usize,
    pub focused_panel: FocusedPanel,
    /// What the user is typing, and the cursor as a character index into it.
    pub input_buffer: Vec<char>,
    pub input_cursor: usize,
    pub show_help_bar: bool,
    pub split_ratio: u16,
    pub status_message: Option<String>,
    pub error_message: Option<String>,
    pub editing_message_id: Option<i32>,
    pub replying_to_message_id: Option<i32>,
    pub delete_confirmation: Option<DeleteConfirmation>,
    /// The chat search query while a search is open.
    pub chat_search: Option<Vec<char>>,
    pub chat_search_selected: usize,
    pub chat_search_scroll_offset: usize,
    pub conversation_load_status: ConversationLoadStatus,
    /// Chat and topic scopes whose older history is known to be fully loaded.
    pub exhausted_history: Vec<(i64, Option<i32>)>,
    pub folder_chat_cache: Vec<FolderChatCache>,
    /// The id given to the next message that is still being sent.
    pub next_temp_id: i32,
    /// Where the last frame drew the screen and each of its panels.
    pub screen_area: Rect,
    pub folders_area: Rect,
    pub chats_area: Rect,
    pub thread_topics_area: Rect,
    pub messages_area: Rect,
    pub input_area: Rect,
    /// Whether the divider between the chats and the messages is being dragged.
    pub split_drag_active: bool,
    pub context_menu: Option<ContextMenu>,
    /// Where media of loaded messages was saved, at most one file per message.
    pub downloaded_media: Vec<DownloadRecord>,
    /// The chat and topic the typing indicator was last sent for, and when (in
    /// milliseconds of the event loop's clock).
    pub typing_action_sent: Option<(i64, Option<i32>, u64)>,
    /// The request of the reply on its way, if any; one reply is sent at a time.
    pub reply_submission: Option<u64>,
    /// Whether newer messages of the open conversation were left out of the loaded
    /// window, and how many times that set changed.
    pub newer_history_gap: bool,
    pub newer_history_generation: u64,
    /// A send or reply held back until the newer messages are loaded.
    pub gap_submit: Option<GapSubmit>,
}

/// A send or reply held back until the refresh of request `request_id` for this chat and
/// topic has loaded the newer messages; `ready` once it has.
#[derive(Debug, Clone)]
pub struct GapSubmit {
    pub action: MessageSubmitAction,
    pub request_id: u64,
    pub chat_id: i64,
    pub topic_id: Option<i32>,
    pub ready: bool,
}

/// An index into a list of `len` items: inside it, or 0 for an empty list.
pub open spec fn index_ok(index: usize, len: nat) -> bool {
    if len == 0 {
        index == 0
    } else {
        index < len
    }
}

impl AppState {
    /// Selections stay inside their lists, the cursor inside the input, the split inside
    /// its bounds, and the page size is positive.
    pub open spec fn wf(&self) -> bool {
        &&& index_ok(self.selected_folder_index, self.folders@.len())
        &&& index_ok(self.selected_chat_index, self.chats@.len())
        &&& index_ok(self.selected_message_index, self.messages@.len())
        &&& index_ok(self.selected_thread_topic_index, self.thread_topics@.len())
        &&& self.input_cursor <= self.input_buffer@.len()
        &&& MIN_SPLIT_RATIO <= self.split_ratio <= MAX_SPLIT_RATIO
        &&& self.message_page_size > 0
        &&& self.next_temp_id < 0
    }

    /// The state of a client that has just started: well formed, nothing loaded or
    /// typed, the chat list focused, every selection and scroll offset at the start,
    /// the help bar shown, the default split, no message, mode or menu, and every panel
    /// area empty until the first draw.
    pub open spec fn is_initial(&self) -> bool {
        &&& self.wf()
        &&& self.folders@.len() == 0
        &&& self.chats@.len() == 0
        &&& self.messages@.len() == 0
        &&& self.thread_topics@.len() == 0
        &&& self.focused_panel == FocusedPanel::Chats
        &&& self.input_buffer@.len() == 0
        &&& self.show_help_bar
        &&& self.split_ratio == DEFAULT_SPLIT_RATIO
        &&& self.status_message is None
        &&& self.error_message is None
        &&& self.editing_message_id is None
        &&& self.replying_to_message_id is None
        &&& self.delete_confirmation is None
        &&& self.chat_search is None
        &&& self.conversation_load_status == ConversationLoadStatus::Idle
        &&& self.next_temp_id == -1
        &&& self.selected_folder_index == 0
        &&& self.selected_chat_index == 0
        &&& self.chat_scroll_offset == 0
        &&& self.selected_message_index == 0
        &&& self.message_scroll_offset == 0
        &&& self.message_page_size == DEFAULT_MESSAGE_PAGE_SIZE
        &&& self.selected_thread_topic_index == 0
        &&& self.input_cursor == 0
        &&& self.chat_search_selected == 0
        &&& self.chat_search_scroll_offset == 0
        &&& self.exhausted_history@.len() == 0
        &&& self.folder_chat_cache@.len() == 0
        &&& !self.split_drag_active
        &&& self.context_menu is None
        &&& self.downloaded_media@.len() == 0
        &&& self.typing_action_sent is None
        &&& self.reply_submission is None
        &&& !self.newer_history_gap
        &&& self.newer_history_generation == 0
        &&& self.gap_submit is None
        &&& self.screen_area == (Rect { x: 0, y: 0, width: 0, height: 0 })
        &&& self.folders_area == (Rect { x: 0, y: 0, width: 0, height: 0 })
        &&& self.chats_area == (Rect { x: 0, y: 0, width: 0, height: 0 })
        &&& self.thread_topics_area == (Rect { x: 0, y: 0, width: 0, height: 0 })
        &&& self.messages_area == (Rect { x: 0, y: 0, width: 0, height: 0 })
        &&& self.input_area == (Rect { x: 0, y: 0, width: 0, height: 0 })
    }

    pub fn new() -> (s: AppState)
        ensures
            s.is_initial(),
    {
        AppState {
            folders: Vec::new(),
            selected_folder_index: 0,
            chats: Vec::new(),
            selected_chat_index: 0,
            chat_scroll_offset: 0,
            messages: Vec::new(),
            selected_message_index: 0,
            message_scroll_offset: 0,
            message_page_size: DEFAULT_MESSAGE_PAGE_SIZE,
            thread_topics: Vec::new(),
            selected_thread_topic_index: 0,
            focused_panel: FocusedPanel::Chats,
            input_buffer: Vec::new(),
            input_cursor: 0,
            show_help_bar: true,
            split_ratio: DEFAULT_SPLIT_RATIO,
            status_message: None,
            error_message: None,
            editing_message_id: None,
            replying_to_message_id: None,
            delete_confirmation: None,
            chat_search: None,
            chat_search_selected: 0,
            chat_search_scroll_offset: 0,
            conversation_load_status: ConversationLoadStatus::Idle,
            exhausted_history: Vec::new(),
            folder_chat_cache: Vec::new(),
            next_temp_id: -1,
            screen_area: Rect::new(0, 0, 0, 0),
            folders_area: Rect::new(0, 0, 0, 0),
            chats_area: Rect::new(0, 0, 0, 0),
            thread_topics_area: Rect::new(0, 0, 0, 0),
            messages_area: Rect::new(0, 0, 0, 0),
            input_area: Rect::new(0, 0, 0, 0),
            split_drag_active: false,
            context_menu: None,
            downloaded_media: Vec::new(),
            typing_action_sent: None,
            reply_submission: None,
            newer_history_gap: false,
            newer_history_generation: 0,
            gap_submit: None,
        }
    }

    // ----- layout preferences -----

    pub fn toggle_help_bar(&mut self)
        ensures
            old(self).wf() ==> final(self).wf(),
            *final(self) == (AppState { show_help_bar: !old(self).show_help_bar, ..*old(self) }),
    {
        self.show_help_bar = !self.show_help_bar;
    }

    /// Narrows the chat list by one step, not below the minimum.
    pub fn adjust_split_left(&mut self)
        ensures
            old(self).wf() ==> final(self).wf(),
            *final(self) == (AppState {
                split_ratio: if old(self).split_ratio >= MIN_SPLIT_RATIO + SPLIT_RATIO_STEP {
                    (old(self).split_ratio - SPLIT_RATIO_STEP) as u16
                } else {
                    MIN_SPLIT_RATIO
                },
                ..*old(self)
            }),
    {
        if self.split_ratio >= MIN_SPLIT_RATIO + SPLIT_RATIO_STEP {
            self.split_ratio = self.split_ratio - SPLIT_RATIO_STEP;
        } else {
            self.split_ratio = MIN_SPLIT_RATIO;
        }
    }

    /// Widens the chat list by one step, not above the maximum.
    pub fn adjust_split_right(&mut self)
        ensures
            old(self).wf() ==> final(self).wf(),
            *final(self) == (AppState {
                split_ratio: if old(self).split_ratio <= MAX_SPLIT_RATIO - SPLIT_RATIO_STEP {
                    (old(self).split_ratio + SPLIT_RATIO_STEP) as u16
                } else {
                    MAX_SPLIT_RATIO
                },
                ..*old(self)
            }),
    {
        if self.split_ratio <= MAX_SPLIT_RATIO - SPLIT_RATIO_STEP {
            self.split_ratio = self.split_ratio + SPLIT_RATIO_STEP;
        } else {
            self.split_ratio = MAX_SPLIT_RATIO;
        }
    }

    // ----- focus -----

    /// Folders, chats, messages, input, and around again.
    pub open spec fn next_panel(p: FocusedPanel) -> FocusedPanel {
        match p {
            FocusedPanel::Folders => FocusedPanel::Chats,
            FocusedPanel::Chats => FocusedPanel::Messages,
            FocusedPanel::Messages => FocusedPanel::Input,
            FocusedPanel::Input => FocusedPanel::Folders,
        }
    }

    pub fn focus_next_panel(&mut self)
        ensures
            old(self).wf() ==> final(self).wf(),
            *final(self) == (AppState {
                focused_panel: Self::next_panel(old(self).focused_panel),
                ..*old(self)
            }),
    {
        self.focused_panel = match self.focused_panel {
            FocusedPanel::Folders => FocusedPanel::Chats,
            FocusedPanel::Chats => FocusedPanel::Messages,
            FocusedPanel::Messages => FocusedPanel::Input,
            FocusedPanel::Input => FocusedPanel::Folders,
        };
    }

    // ----- status line -----

    /// Shows a status; a shown error is replaced by it.
    pub fn set_status(&mut self, status: &str)
        ensures
            old(self).wf() ==> final(self).wf(),
            final(self).status_message is Some && final(self).status_message->0@ == status@,
            *final(self) == (AppState {
                status_message: final(self).status_message,
                error_message: None,
                ..*old(self)
            }),
    {
        self.status_message = Some(String::from_str(status));
        self.error_message = None;
    }

    /// Shows an error; a shown status is replaced by it.
    pub fn set_error(&mut self, error: String)
        ensures
            old(self).wf() ==> final(self).wf(),
            *final(self) == (AppState {
                status_message: None,
                error_message: Some(error),
                ..*old(self)
            }),
    {
        self.status_message = None;
        self.error_message = Some(error);
    }

    pub fn clear_status(&mut self)
        ensures
            old(self).wf() ==> final(self).wf(),
            *final(self) == (AppState { status_message: None, ..*old(self) }),
    {
        self.status_message = None;
    }

    // ----- message selection -----

    pub open spec fn next_index(index: usize, len: nat) -> usize {
        if index + 1 < len {
            (index + 1) as usize
        } else {
            index
        }
    }

    pub open spec fn prev_index(index: usize) -> usize {
        if index > 0 {
            (index - 1) as usize
        } else {
            index
        }
    }

    pub fn select_next_message(&mut self)
        ensures
            old(self).wf() ==> final(self).wf(),
            *final(self) == (AppState {
                selected_message_index: Self::next_index(
                    old(self).selected_message_index,
                    old(self).messages@.len(),
                ),
                ..*old(self)
            }),
    {
        if self.selected_message_index < self.messages.len()
            && self.selected_message_index + 1 < self.messages.len() {
            self.selected_message_index = self.selected_message_index + 1;
        }
    }

    pub fn select_prev_message(&mut self)
        ensures
            old(self).wf() ==> final(self).wf(),
            *final(self) == (AppState {
                selected_message_index: Self::prev_index(old(self).selected_message_index),
                ..*old(self)
            }),
    {
        if self.selected_message_index > 0 {
            self.selected_message_index = self.selected_message_index - 1;
        }
    }

    pub fn select_first_message(&mut self)
        ensures
            old(self).wf() ==> final(self).wf(),
            *final(self) == (AppState { selected_message_index: 0, ..*old(self) }),
    {
        self.selected_message_index = 0;
    }

    pub open spec fn last_index(len: nat) -> usize {
        if len == 0 {
            0
        } else {
            (len - 1) as usize
        }
    }

    pub fn select_last_message(&mut self)
        ensures
            old(self).wf() ==> final(self).wf(),
            *final(self) == (AppState {
                selected_message_index: Self::last_index(old(self).messages@.len()),
                ..*old(self)
            }),
    {
        self.selected_message_index = if self.messages.len() == 0 {
            0
        } else {
            self.messages.len() - 1
        };
    }

    /// One page further down, stopping at the last message.
    pub open spec fn page_down_index(index: usize, page: usize, len: nat) -> usize {
        if len == 0 {
            index
        } else if index + page >= len {
            (len - 1) as usize
        } else {
            (index + page) as usize
        }
    }

    /// One page further up, stopping at the first message.
    pub open spec fn page_up_index(index: usize, page: usize) -> usize {
        if index >= page {
            (index - page) as usize
        } else {
            0
        }
    }

    pub fn page_messages_down(&mut self)
        ensures
            old(self).wf() ==> final(self).wf(),
            old(self).messages@.len() > 0 ==> final(self).selected_message_index as int == if old(
                self,
            ).selected_message_index + old(self).message_page_size <= old(self).messages@.len() - 1 {
                old(self).selected_message_index + old(self).message_page_size
            } else {
                old(self).messages@.len() - 1
            },
            old(self).messages@.len() == 0 ==> final(self).selected_message_index == old(self).selected_message_index,
            *final(self) == (AppState {
                selected_message_index: Self::page_down_index(
                    old(self).selected_message_index,
                    old(self).message_page_size,
                    old(self).messages@.len(),
                ),
                ..*old(self)
            }),
    {
        let len = self.messages.len();
        if len > 0 {
            if self.selected_message_index >= len || self.message_page_size >= len
                - self.selected_message_index {
                self.selected_message_index = len - 1;
            } else {
                self.selected_message_index = self.selected_message_index
                    + self.message_page_size;
            }
        }
    }

    pub fn page_messages_up(&mut self)
        ensures
            old(self).wf() ==> final(self).wf(),
            final(self).selected_message_index as int == if old(self).selected_message_index
                >= old(self).message_page_size {
                old(self).selected_message_index - old(self).message_page_size
            } else {
                0
            },
            *final(self) == (AppState {
                selected_message_index: Self::page_up_index(
                    old(self).selected_message_index,
                    old(self).message_page_size,
                ),
                ..*old(self)
            }),
    {
        if self.selected_message_index >= self.message_page_size {
            self.selected_message_index = self.selected_message_index - self.message_page_size;
        } else {
            self.selected_message_index = 0;
        }
    }

    /// Paging laws: with messages loaded, a page down selects the message a page further
    /// down, or the last one when less than a page remains below; a page up selects the
    /// message a page further up, or the first one; neither leaves the loaded messages.
    pub proof fn lemma_paging_selects_within_a_page(index: usize, page: usize, len: nat)
        requires
            index < len || len == 0,
            len <= usize::MAX,
        ensures
            len > 0 ==> {
                let down = Self::page_down_index(index, page, len) as int;
                &&& down == if index + page < len { index + page } else { len - 1 }
                &&& 0 <= down < len
                &&& down >= index
                &&& index + page >= len ==> down == len - 1
            },
            ({
                let up = Self::page_up_index(index, page) as int;
                &&& up == if index >= page { index - page } else { 0 }
                &&& up <= index
                &&& index < page ==> up == 0
            }),
    {
    }

    /// The selected message, when the selection is inside the loaded messages.
    pub open spec fn selected_message_spec(&self) -> Option<Message> {
        if self.selected_message_index < self.messages@.len() {
            Some(self.messages@[self.selected_message_index as int])
        } else {
            None
        }
    }

    pub fn selected_message(&self) -> (r: Option<&Message>)
        ensures
            match r {
                Some(m) => self.selected_message_spec() == Some(*m),
                None => self.selected_message_spec() is None,
            },
    {
        if self.selected_message_index < self.messages.len() {
            Some(&self.messages[self.selected_message_index])
        } else {
            None
        }
    }

    // ----- thread topics -----

    pub fn select_next_thread_topic(&mut self)
        ensures
            old(self).wf() ==> final(self).wf(),
            *final(self) == (AppState {
                selected_thread_topic_index: Self::next_index(
                    old(self).selected_thread_topic_index,
                    old(self).thread_topics@.len(),
                ),
                ..*old(self)
            }),
    {
        if self.selected_thread_topic_index < self.thread_topics.len()
            && self.selected_thread_topic_index + 1 < self.thread_topics.len() {
            self.selected_thread_topic_index = self.selected_thread_topic_index + 1;
        }
    }

    pub fn select_prev_thread_topic(&mut self)
        ensures
            old(self).wf() ==> final(self).wf(),
            *final(self) == (AppState {
                selected_thread_topic_index: Self::prev_index(old(self).selected_thread_topic_index),
                ..*old(self)
            }),
    {
        if self.selected_thread_topic_index > 0 {
            self.selected_thread_topic_index = self.selected_thread_topic_index - 1;
        }
    }

    /// Selects the topic at `index` when there is one.
    pub fn select_thread_topic_at(&mut self, index: usize)
        ensures
            old(self).wf() ==> final(self).wf(),
            *final(self) == (AppState {
                selected_thread_topic_index: if index < old(self).thread_topics@.len() {
                    index
                } else {
                    old(self).selected_thread_topic_index
                },
                ..*old(self)
            }),
    {
        if index < self.thread_topics.len() {
            self.selected_thread_topic_index = index;
        }
    }

    /// The id of the selected topic, when the selection is inside the loaded topics.
    pub open spec fn selected_topic_id_spec(&self) -> Option<i32> {
        if self.selected_thread_topic_index < self.thread_topics@.len() {
            Some(self.thread_topics@[self.selected_thread_topic_index as int].id)
        } else {
            None
        }
    }

    pub fn selected_thread_topic_id(&self) -> (r: Option<i32>)
        ensures
            r == self.selected_topic_id_spec(),
    {
        if self.selected_thread_topic_index < self.thread_topics.len() {
            Some(self.thread_topics[self.selected_thread_topic_index].id)
        } else {
            None
        }
    }

    // ----- input editing -----

    /// The cursor, held inside the input.
    pub open spec fn cursor_spec(&self) -> int {
        if self.input_cursor <= self.input_buffer@.len() {
            self.input_cursor as int
        } else {
            self.input_buffer@.len() as int
        }
    }

    fn cursor(&self) -> (c: usize)
        ensures
            c == self.cursor_spec(),
    {
        if self.input_cursor <= self.input_buffer.len() {
            self.input_cursor
        } else {
            self.input_buffer.len()
        }
    }

    /// Inserts `c` at the cursor and moves the cursor past it.
    pub fn insert_input_char(&mut self, c: char)
        ensures
            old(self).wf() ==> final(self).wf(),
            final(self).input_buffer@ == old(self).input_buffer@.insert(old(self).cursor_spec(), c),
            final(self).input_cursor == old(self).cursor_spec() + 1,
            *final(self) == (AppState {
                input_buffer: final(self).input_buffer,
                input_cursor: final(self).input_cursor,
                ..*old(self)
            }),
    {
        let cur = self.cursor();
        self.input_buffer.insert(cur, c);
        let n = self.input_buffer.len();
        assert(cur < n);
        self.input_cursor = cur + 1;
    }

    /// Removes the character before the cursor.
    pub fn backspace_input_char(&mut self)
        ensures
            old(self).wf() ==> final(self).wf(),
            old(self).cursor_spec() > 0 ==> final(self).input_buffer@ == old(self).input_buffer@.remove(old(self).cursor_spec() - 1) && final(self).input_cursor == old(self).cursor_spec() - 1,
            old(self).cursor_spec() == 0 ==> final(self).input_buffer@ == old(self).input_buffer@
                && final(self).input_cursor == 0,
            *final(self) == (AppState {
                input_buffer: final(self).input_buffer,
                input_cursor: final(self).input_cursor,
                ..*old(self)
            }),
    {
        let cur = self.cursor();
        if cur > 0 {
            self.input_buffer.remove(cur - 1);
            self.input_cursor = cur - 1;
        } else {
            self.input_cursor = 0;
        }
    }

    /// Removes the character under the cursor.
    pub fn delete_input_char(&mut self)
        ensures
            old(self).wf() ==> final(self).wf(),
            old(self).cursor_spec() < old(self).input_buffer@.len() ==> final(self).input_buffer@
                == old(self).input_buffer@.remove(old(self).cursor_spec()),
            old(self).cursor_spec() == old(self).input_buffer@.len() ==> final(self).input_buffer@
                == old(self).input_buffer@,
            final(self).input_cursor == old(self).cursor_spec(),
            *final(self) == (AppState {
                input_buffer: final(self).input_buffer,
                input_cursor: final(self).input_cursor,
                ..*old(self)
            }),
    {
        let cur = self.cursor();
        if cur < self.input_buffer.len() {
            self.input_buffer.remove(cur);
        }
        self.input_cursor = cur;
    }

    pub fn move_input_cursor_left(&mut self)
        ensures
            old(self).wf() ==> final(self).wf(),
            *final(self) == (AppState {
                input_cursor: if old(self).cursor_spec() > 0 {
                    (old(self).cursor_spec() - 1) as usize
                } else {
                    0
                },
                ..*old(self)
            }),
    {
        let cur = self.cursor();
        self.input_cursor = if cur > 0 {
            cur - 1
        } else {
            0
        };
    }

    pub fn move_input_cursor_right(&mut self)
        ensures
            old(self).wf() ==> final(self).wf(),
            *final(self) == (AppState {
                input_cursor: if old(self).cursor_spec() < old(self).input_buffer@.len() {
                    (old(self).cursor_spec() + 1) as usize
                } else {
                    old(self).input_buffer@.len() as usize
                },
                ..*old(self)
            }),
    {
        let cur = self.cursor();
        self.input_cursor = if cur < self.input_buffer.len() {
            cur + 1
        } else {
            self.input_buffer.len()
        };
    }

    pub fn move_input_cursor_to_start(&mut self)
        ensures
            old(self).wf() ==> final(self).wf(),
            *final(self) == (AppState { input_cursor: 0, ..*old(self) }),
    {
        self.input_cursor = 0;
    }

    pub fn move_input_cursor_to_end(&mut self)
        ensures
            old(self).wf() ==> final(self).wf(),
            *final(self) == (AppState {
                input_cursor: old(self).input_buffer@.len() as usize,
                ..*old(self)
            }),
    {
        self.input_cursor = self.input_buffer.len();
    }

    /// Removes everything after the cursor.
    pub fn delete_input_after_cursor(&mut self)
        ensures
            old(self).wf() ==> final(self).wf(),
            final(self).input_buffer@ == old(self).input_buffer@.take(old(self).cursor_spec()),
            final(self).input_cursor == old(self).cursor_spec(),
            *final(self) == (AppState {
                input_buffer: final(self).input_buffer,
                input_cursor: final(self).input_cursor,
                ..*old(self)
            }),
    {
        let cur = self.cursor();
        self.input_buffer.truncate(cur);
        self.input_cursor = cur;
    }

    /// Removes everything before the cursor.
    pub fn delete_input_before_cursor(&mut self)
        ensures
            old(self).wf() ==> final(self).wf(),
            final(self).input_buffer@ == old(self).input_buffer@.skip(old(self).cursor_spec()),
            final(self).input_cursor == 0,
            *final(self) == (AppState {
                input_buffer: final(self).input_buffer,
                input_cursor: final(self).input_cursor,
                ..*old(self)
            }),
    {
        let cur = self.cursor();
        let rest = crate::links::slice_range(&self.input_buffer, cur, self.input_buffer.len());
        self.input_buffer = rest;
        self.input_cursor = 0;
    }

    /// Start of the word before `end`: whitespace right before `end` is skipped, then the
    /// non-whitespace run before it.
    pub open spec fn word_start(buf: Seq<char>, end: int) -> int {
        Self::word_run_start(buf, Self::space_run_start(buf, end))
    }

    pub open spec fn space_run_start(buf: Seq<char>, end: int) -> int
        decreases end,
    {
        if end > 0 && end <= buf.len() && crate::text::is_whitespace_spec(buf[end - 1]) {
            Self::space_run_start(buf, end - 1)
        } else {
            end
        }
    }

    pub open spec fn word_run_start(buf: Seq<char>, end: int) -> int
        decreases end,
    {
        if end > 0 && end <= buf.len() && !crate::text::is_whitespace_spec(buf[end - 1]) {
            Self::word_run_start(buf, end - 1)
        } else {
            end
        }
    }

    /// Removes the word before the cursor (and the spaces after it).
    pub fn delete_input_previous_word(&mut self)
        ensures
            old(self).wf() ==> final(self).wf(),
            final(self).input_buffer@ == old(self).input_buffer@.take(
                Self::word_start(old(self).input_buffer@, old(self).cursor_spec()),
            ) + old(self).input_buffer@.skip(old(self).cursor_spec()),
            final(self).input_cursor == Self::word_start(
                old(self).input_buffer@,
                old(self).cursor_spec(),
            ),
            *final(self) == (AppState {
                input_buffer: final(self).input_buffer,
                input_cursor: final(self).input_cursor,
                ..*old(self)
            }),
    {
        let cur = self.cursor();
        let mut start = cur;
        while start > 0 && crate::text::is_whitespace(self.input_buffer[start - 1])
            invariant
                start <= cur <= self.input_buffer@.len(),
                Self::space_run_start(self.input_buffer@, cur as int) == Self::space_run_start(
                    self.input_buffer@,
                    start as int,
                ),
            decreases start,
        {
            start -= 1;
        }
        let ghost mid = start;
        while start > 0 && !crate::text::is_whitespace(self.input_buffer[start - 1])
            invariant
                start <= mid <= cur <= self.input_buffer@.len(),
                mid == Self::space_run_start(self.input_buffer@, cur as int),
                Self::word_run_start(self.input_buffer@, mid as int) == Self::word_run_start(
                    self.input_buffer@,
                    start as int,
                ),
            decreases start,
        {
            start -= 1;
        }
        let head = crate::links::slice_range(&self.input_buffer, 0, start);
        let tail = crate::links::slice_range(&self.input_buffer, cur, self.input_buffer.len());
        let joined = crate::text::concat_chars(&head, tail.as_slice());
        proof {
            assert(head@ =~= self.input_buffer@.take(start as int));
            assert(tail@ =~= self.input_buffer@.skip(cur as int));
        }
        self.input_buffer = joined;
        self.input_cursor = start;
    }

    /// The cursor's position in the input, in characters.
    pub fn input_cursor(&self) -> (r: usize)
        ensures
            r == self.input_cursor,
    {
        self.input_cursor
    }

    /// The input as a string.
    pub fn input_text(&self) -> (r: String)
        ensures
            r@ == self.input_buffer@,
    {
        crate::text::string_of(self.input_buffer.as_slice())
    }

    /// Replaces the input and puts the cursor at its end.
    pub fn set_input(&mut self, text: &str)
        ensures
            old(self).wf() ==> final(self).wf(),
            final(self).input_buffer@ == text@,
            *final(self) == (AppState {
                input_buffer: final(self).input_buffer,
                input_cursor: text@.len() as usize,
                ..*old(self)
            }),
    {
        self.input_buffer = crate::text::chars_of(text);
        self.input_cursor = self.input_buffer.len();
    }

    /// Empties the input.
    pub fn clear_input(&mut self)
        ensures
            old(self).wf() ==> final(self).wf(),
            final(self).input_buffer@.len() == 0,
            *final(self) == (AppState {
                input_buffer: final(self).input_buffer,
                input_cursor: 0,
                ..*old(self)
            }),
    {
        self.input_buffer = Vec::new();
        self.input_cursor = 0;
    }

    // ----- chat selection -----

    /// The id of the selected chat, when the selection is inside the chat list.
    pub open spec fn selected_chat_id_spec(&self) -> Option<i64> {
        if self.selected_chat_index < self.chats@.len() {
            Some(self.chats@[self.selected_chat_index as int].id)
        } else {
            None
        }
    }

    pub fn selected_chat_id(&self) -> (r: Option<i64>)
        ensures
            r == self.selected_chat_id_spec(),
    {
        if self.selected_chat_index < self.chats.len() {
            Some(self.chats[self.selected_chat_index].id)
        } else {
            None
        }
    }

    /// Selects the chat at `index` when there is one.
    pub fn select_chat(&mut self, index: usize)
        ensures
            old(self).wf() ==> final(self).wf(),
            *final(self) == (AppState {
                selected_chat_index: if index < old(self).chats@.len() {
                    index
                } else {
                    old(self).selected_chat_index
                },
                ..*old(self)
            }),
    {
        if index < self.chats.len() {
            self.selected_chat_index = index;
        }
    }

    /// Back to the top of the chat list.
    pub fn reset_chat_selection(&mut self)
        ensures
            old(self).wf() ==> final(self).wf(),
            *final(self) == (AppState {
                selected_chat_index: 0,
                chat_scroll_offset: 0,
                ..*old(self)
            }),
    {
        self.selected_chat_index = 0;
        self.chat_scroll_offset = 0;
    }

    /// The chat `k` places after `base` in a list of `len` chats, wrapping around
    /// (for `base < len` and `k <= len`).
    pub open spec fn wrapped_index(base: int, k: int, len: int) -> int {
        if k >= len - base {
            k - (len - base)
        } else {
            base + k
        }
    }

    /// The chat's name starts with `c`, ignoring ASCII case.
    pub open spec fn chat_starts_with(chat: Chat, c: char) -> bool {
        chat.name@.len() > 0 && crate::text::ascii_lower_spec(chat.name@[0])
            == crate::text::ascii_lower_spec(c)
    }

    /// The first chat after `base` (the `k`-th on) whose name starts with `c`.
    pub open spec fn next_starting_with(chats: Seq<Chat>, base: int, c: char, k: int) -> Option<
        usize,
    >
        decreases chats.len() + 1 - k,
    {
        if k > chats.len() || k < 1 {
            None
        } else if Self::chat_starts_with(chats[Self::wrapped_index(base, k, chats.len() as int)], c) {
            Some(Self::wrapped_index(base, k, chats.len() as int) as usize)
        } else {
            Self::next_starting_with(chats, base, c, k + 1)
        }
    }

    pub open spec fn next_chat_starting_with_spec(&self, c: char) -> Option<usize> {
        if self.chats@.len() == 0 {
            None
        } else {
            Self::next_starting_with(
                self.chats@,
                (self.selected_chat_index % (self.chats@.len() as usize)) as int,
                c,
                1,
            )
        }
    }

    /// The next chat after the selected one, wrapping around, whose name starts with
    /// `prefix` (ignoring ASCII case).
    pub fn next_chat_index_starting_with(&self, prefix: char) -> (r: Option<usize>)
        ensures
            r == self.next_chat_starting_with_spec(prefix),
            r matches Some(i) ==> i < self.chats@.len(),
    {
        let len = self.chats.len();
        if len == 0 {
            return None;
        }
        let base = self.selected_chat_index % len;
        let want = crate::text::ascii_lower(prefix);
        let mut j: usize = 0;
        while j < len
            invariant
                len == self.chats@.len(),
                base < len,
                j <= len,
                want == crate::text::ascii_lower_spec(prefix),
                self.next_chat_starting_with_spec(prefix) == Self::next_starting_with(
                    self.chats@,
                    base as int,
                    prefix,
                    j + 1,
                ),
            decreases len - j,
        {
            let k = j + 1;
            let idx = if k >= len - base {
                k - (len - base)
            } else {
                base + k
            };
            assert(idx == Self::wrapped_index(base as int, k as int, len as int));
            let name = crate::text::chars_of(self.chats[idx].name.as_str());
            assert(name@ == self.chats@[idx as int].name@);
            if name.len() > 0 && crate::text::ascii_lower(name[0]) == want {
                assert(Self::chat_starts_with(self.chats@[idx as int], prefix));
                return Some(idx);
            }
            j += 1;
        }
        None
    }

    // ----- chat search -----

    /// ASCII case folding of a string.
    pub open spec fn fold(s: Seq<char>) -> Seq<char> {
        s.map_values(|c: char| crate::text::ascii_lower_spec(c))
    }

    /// `g` places `needle[i..]` in `hay[j..]` at increasing positions.
    pub open spec fn places(needle: Seq<char>, hay: Seq<char>, i: int, j: int, g: Seq<int>) -> bool {
        &&& g.len() == needle.len() - i
        &&& forall|k: int| 0 <= k < g.len() ==> j <= #[trigger] g[k] < hay.len() && hay[g[k]] == needle[i + k]
        &&& forall|k1: int, k2: int| 0 <= k1 < k2 < g.len() ==> #[trigger] g[k1] < #[trigger] g[k2]
    }

    /// `needle` is a subsequence of `hay`: its characters occur in `hay` in order, not
    /// necessarily next to each other (a substring is one).
    pub open spec fn subsequence_spec(needle: Seq<char>, hay: Seq<char>) -> bool {
        exists|g: Seq<int>| #[trigger] Self::places(needle, hay, 0, 0, g)
    }

    /// The chat's name holds the query as a subsequence, ignoring ASCII case; substrings
    /// and looser, fuzzy matches both count.
    pub open spec fn chat_matches(chat: Chat, query: Seq<char>) -> bool {
        Self::subsequence_spec(Self::fold(query), Self::fold(chat.name@))
    }

    /// Indices of the first `n` chats that match `query`, in order.
    pub open spec fn matching_indices(chats: Seq<Chat>, query: Seq<char>, n: int) -> Seq<usize>
        decreases n,
    {
        if n <= 0 {
            Seq::empty()
        } else if Self::chat_matches(chats[n - 1], query) {
            Self::matching_indices(chats, query, n - 1).push((n - 1) as usize)
        } else {
            Self::matching_indices(chats, query, n - 1)
        }
    }

    pub open spec fn all_indices(n: int) -> Seq<usize>
        decreases n,
    {
        if n <= 0 {
            Seq::empty()
        } else {
            Self::all_indices(n - 1).push((n - 1) as usize)
        }
    }

    /// The chats shown in the list: the search matches while a search is open, else all.
    pub open spec fn display_indices_spec(&self) -> Seq<usize> {
        match self.chat_search {
            Some(q) => Self::matching_indices(self.chats@, q@, self.chats@.len() as int),
            None => Self::all_indices(self.chats@.len() as int),
        }
    }

    fn fold_chars(s: &Vec<char>) -> (r: Vec<char>)
        ensures
            r@ == Self::fold(s@),
    {
        let mut r: Vec<char> = Vec::new();
        let mut k: usize = 0;
        while k < s.len()
            invariant
                k <= s.len(),
                r@ == Self::fold(s@.subrange(0, k as int)),
            decreases s.len() - k,
        {
            r.push(crate::text::ascii_lower(s[k]));
            k += 1;
            assert(r@ =~= Self::fold(s@.subrange(0, k as int)));
        }
        assert(s@.subrange(0, s@.len() as int) =~= s@);
        r
    }

    /// Dropping the first placed character: the rest of the needle is placed after it.
    proof fn lemma_places_rest(needle: Seq<char>, hay: Seq<char>, i: int, j: int, g: Seq<int>)
        requires
            Self::places(needle, hay, i, j, g),
            g.len() > 0,
        ensures
            Self::places(needle, hay, i + 1, g[0] + 1, g.drop_first()),
    {
        assert forall|k: int| 0 <= k < g.drop_first().len() implies g[0] + 1 <= #[trigger] g.drop_first()[k] < hay.len()
            && hay[g.drop_first()[k]] == needle[i + 1 + k] by {
            assert(g.drop_first()[k] == g[k + 1]);
            assert(g[0] < g[k + 1]);
        }
        assert forall|k1: int, k2: int| 0 <= k1 < k2 < g.drop_first().len() implies #[trigger] g.drop_first()[k1]
            < #[trigger] g.drop_first()[k2] by {
            assert(g[k1 + 1] < g[k2 + 1]);
        }
    }

    /// Whether `needle` is a subsequence of `hay`: each character of the needle is taken
    /// at its first occurrence after the one before.
    fn subsequence_chars(needle: &Vec<char>, hay: &Vec<char>) -> (r: bool)
        ensures
            r == Self::subsequence_spec(needle@, hay@),
    {
        let ghost n = needle@;
        let ghost h = hay@;
        let ghost mut found: Seq<int> = Seq::empty();
        let mut i: usize = 0;
        let mut j: usize = 0;
        while i < needle.len() && j < hay.len()
            invariant
                n == needle@,
                h == hay@,
                i <= needle.len(),
                j <= hay.len(),
                found.len() == i,
                forall|k: int| 0 <= k < i ==> 0 <= #[trigger] found[k] < j && h[found[k]] == n[k],
                forall|k1: int, k2: int| 0 <= k1 < k2 < i ==> #[trigger] found[k1] < #[trigger] found[k2],
                Self::subsequence_spec(n, h) ==> exists|g: Seq<int>| #[trigger] Self::places(n, h, i as int, j as int, g),
            decreases hay.len() - j,
        {
            proof {
                if Self::subsequence_spec(n, h) {
                    let g = choose|g: Seq<int>| #[trigger] Self::places(n, h, i as int, j as int, g);
                    assert(g.len() > 0);
                    assert(j <= g[0]);
                    if hay@[j as int] == needle@[i as int] {
                        Self::lemma_places_rest(n, h, i as int, j as int, g);
                        assert(Self::places(n, h, i + 1, g[0] + 1, g.drop_first()));
                        let g2 = g.drop_first();
                        assert(Self::places(n, h, i + 1, j + 1, g2)) by {
                            assert forall|k: int| 0 <= k < g2.len() implies j + 1 <= #[trigger] g2[k] < h.len()
                                && h[g2[k]] == n[i + 1 + k] by {
                                assert(g[0] + 1 <= g2[k]);
                            }
                        }
                    } else {
                        assert(g[0] != j);
                        assert(Self::places(n, h, i as int, j + 1, g)) by {
                            assert forall|k: int| 0 <= k < g.len() implies j + 1 <= #[trigger] g[k] < h.len()
                                && h[g[k]] == n[i + k] by {
                                if k > 0 {
                                    assert(g[0] < g[k]);
                                }
                            }
                        }
                    }
                }
            }
            if hay[j] == needle[i] {
                proof {
                    found = found.push(j as int);
                }
                i += 1;
            }
            j += 1;
        }
        if i == needle.len() {
            proof {
                assert(Self::places(n, h, 0, 0, found));
            }
            true
        } else {
            proof {
                if Self::subsequence_spec(n, h) {
                    let g = choose|g: Seq<int>| #[trigger] Self::places(n, h, i as int, j as int, g);
                    assert(g.len() > 0);
                    assert(j <= g[0] < h.len());
                }
            }
            false
        }
    }

    /// Whether the chat's name matches the query (see `chat_matches`).
    pub fn chat_name_matches(chat: &Chat, query: &Vec<char>) -> (r: bool)
        ensures
            r == Self::chat_matches(*chat, query@),
    {
        let name = Self::fold_chars(&crate::text::chars_of(chat.name.as_str()));
        let q = Self::fold_chars(query);
        Self::subsequence_chars(&q, &name)
    }

    /// The positions in the chat list of the chats that are shown.
    pub fn chat_display_indices(&self) -> (r: Vec<usize>)
        ensures
            r@ == self.display_indices_spec(),
    {
        let mut r: Vec<usize> = Vec::new();
        let mut k: usize = 0;
        while k < self.chats.len()
            invariant
                k <= self.chats@.len(),
                r@ == match self.chat_search {
                    Some(q) => Self::matching_indices(self.chats@, q@, k as int),
                    None => Self::all_indices(k as int),
                },
            decreases self.chats.len() - k,
        {
            match &self.chat_search {
                Some(q) => {
                    if Self::chat_name_matches(&self.chats[k], q) {
                        r.push(k);
                    }
                },
                None => {
                    r.push(k);
                },
            }
            k += 1;
        }
        r
    }

    pub fn chat_search_active(&self) -> (r: bool)
        ensures
            r == (self.chat_search is Some),
    {
        self.chat_search.is_some()
    }

    /// The query typed so far (empty without a search).
    pub fn chat_search_query(&self) -> (r: String)
        ensures
            r@ == match self.chat_search {
                Some(q) => q@,
                None => Seq::empty(),
            },
    {
        match &self.chat_search {
            Some(q) => crate::text::string_of(q.as_slice()),
            None => String::new(),
        }
    }

    /// Opens an empty chat search.
    pub fn begin_chat_search(&mut self)
        ensures
            old(self).wf() ==> final(self).wf(),
            final(self).chat_search is Some && final(self).chat_search->0@.len() == 0,
            *final(self) == (AppState {
                chat_search: final(self).chat_search,
                chat_search_selected: 0,
                chat_search_scroll_offset: 0,
                ..*old(self)
            }),
    {
        self.chat_search = Some(Vec::new());
        self.chat_search_selected = 0;
        self.chat_search_scroll_offset = 0;
    }

    /// Closes the chat search.
    pub fn clear_chat_search(&mut self)
        ensures
            old(self).wf() ==> final(self).wf(),
            *final(self) == (AppState {
                chat_search: None,
                chat_search_selected: 0,
                chat_search_scroll_offset: 0,
                ..*old(self)
            }),
    {
        self.chat_search = None;
        self.chat_search_selected = 0;
        self.chat_search_scroll_offset = 0;
    }

    pub open spec fn query_spec(&self) -> Seq<char> {
        match self.chat_search {
            Some(q) => q@,
            None => Seq::empty(),
        }
    }

    /// Types a character into the search; the first match becomes the highlighted one.
    pub fn push_chat_search_char(&mut self, c: char)
        ensures
            old(self).wf() ==> final(self).wf(),
            final(self).chat_search is Some,
            final(self).chat_search->0@ == old(self).query_spec().push(c),
            *final(self) == (AppState {
                chat_search: final(self).chat_search,
                chat_search_selected: 0,
                chat_search_scroll_offset: 0,
                ..*old(self)
            }),
    {
        let mut q = match &self.chat_search {
            Some(q) => q.clone(),
            None => Vec::new(),
        };
        q.push(c);
        self.chat_search = Some(q);
        self.chat_search_selected = 0;
        self.chat_search_scroll_offset = 0;
    }

    /// Removes the last character of the search query.
    pub fn pop_chat_search_char(&mut self)
        ensures
            old(self).wf() ==> final(self).wf(),
            final(self).chat_search is Some,
            final(self).chat_search->0@ == if old(self).query_spec().len() > 0 {
                old(self).query_spec().drop_last()
            } else {
                Seq::empty()
            },
            *final(self) == (AppState {
                chat_search: final(self).chat_search,
                chat_search_selected: 0,
                chat_search_scroll_offset: 0,
                ..*old(self)
            }),
    {
        let mut q = match &self.chat_search {
            Some(q) => q.clone(),
            None => Vec::new(),
        };
        if q.len() > 0 {
            q.pop();
        }
        self.chat_search = Some(q);
        self.chat_search_selected = 0;
        self.chat_search_scroll_offset = 0;
    }

    /// The chat-list position of the highlighted search match.
    pub open spec fn selected_search_result_spec(&self) -> Option<usize> {
        if self.chat_search is Some && self.chat_search_selected
            < self.display_indices_spec().len() {
            Some(self.display_indices_spec()[self.chat_search_selected as int])
        } else {
            None
        }
    }

    pub fn selected_chat_search_result_index(&self) -> (r: Option<usize>)
        ensures
            r == self.selected_search_result_spec(),
    {
        if self.chat_search.is_none() {
            return None;
        }
        let indices = self.chat_display_indices();
        if self.chat_search_selected < indices.len() {
            Some(indices[self.chat_search_selected])
        } else {
            None
        }
    }

    /// Highlights the next search match, stopping at the last one.
    pub fn select_next_chat_search_match(&mut self)
        ensures
            old(self).wf() ==> final(self).wf(),
            *final(self) == (AppState {
                chat_search_selected: Self::next_index(
                    old(self).chat_search_selected,
                    old(self).display_indices_spec().len(),
                ),
                ..*old(self)
            }),
    {
        let n = self.chat_display_indices().len();
        if self.chat_search_selected < n && self.chat_search_selected + 1 < n {
            self.chat_search_selected = self.chat_search_selected + 1;
        }
    }

    /// Highlights the previous search match, stopping at the first one.
    pub fn select_previous_chat_search_match(&mut self)
        ensures
            old(self).wf() ==> final(self).wf(),
            *final(self) == (AppState {
                chat_search_selected: Self::prev_index(old(self).chat_search_selected),
                ..*old(self)
            }),
    {
        if self.chat_search_selected > 0 {
            self.chat_search_selected = self.chat_search_selected - 1;
        }
    }

    // ----- folders -----

    /// Selects the folder at `index` when there is one.
    pub fn select_folder(&mut self, index: usize)
        ensures
            old(self).wf() ==> final(self).wf(),
            *final(self) == (AppState {
                selected_folder_index: if index < old(self).folders@.len() {
                    index
                } else {
                    old(self).selected_folder_index
                },
                ..*old(self)
            }),
    {
        if index < self.folders.len() {
            self.selected_folder_index = index;
        }
    }

    /// Moves the folder selection back inside the folder list.
    pub fn ensure_selected_folder_visible(&mut self)
        ensures
            old(self).wf() ==> final(self).wf(),
            *final(self) == (AppState {
                selected_folder_index: if old(self).selected_folder_index
                    < old(self).folders@.len() {
                    old(self).selected_folder_index
                } else {
                    Self::last_index(old(self).folders@.len())
                },
                ..*old(self)
            }),
    {
        if self.selected_folder_index >= self.folders.len() {
            self.selected_folder_index = if self.folders.len() == 0 {
                0
            } else {
                self.folders.len() - 1
            };
        }
    }

    /// The chat filter of the selected folder: its id, or none for the all-chats folder
    /// and when no folder is selected.
    pub open spec fn selected_folder_filter_spec(&self) -> Option<i32> {
        if self.selected_folder_index < self.folders@.len() {
            folder_filter_id_spec(self.folders@[self.selected_folder_index as int])
        } else {
            None
        }
    }

    pub fn selected_folder_filter_id(&self) -> (r: Option<i32>)
        ensures
            r == self.selected_folder_filter_spec(),
    {
        if self.selected_folder_index < self.folders.len() {
            folder_filter_id(&self.folders[self.selected_folder_index])
        } else {
            None
        }
    }

    // ----- folder chat cache -----

    /// Position of the first cache entry for `key` at or after `i`, or -1.
    pub open spec fn cache_index(cache: Seq<FolderChatCache>, key: Option<i32>, i: int) -> int
        decreases cache.len() - i,
    {
        if i < 0 || i >= cache.len() {
            -1
        } else if cache[i].folder_id == key {
            i
        } else {
            Self::cache_index(cache, key, i + 1)
        }
    }

    /// The chats cached for a folder filter.
    pub open spec fn cache_lookup(cache: Seq<FolderChatCache>, key: Option<i32>) -> Option<
        Seq<Chat>,
    > {
        let i = Self::cache_index(cache, key, 0);
        if 0 <= i < cache.len() {
            Some(cache[i].chats@)
        } else {
            None
        }
    }

    proof fn lemma_cache_index_range(cache: Seq<FolderChatCache>, key: Option<i32>, i: int)
        requires
            0 <= i,
        ensures
            Self::cache_index(cache, key, i) == -1 || (i <= Self::cache_index(cache, key, i)
                < cache.len() && cache[Self::cache_index(cache, key, i)].folder_id == key),
            Self::cache_index(cache, key, i) == -1 ==> forall|j: int|
                i <= j < cache.len() ==> #[trigger] cache[j].folder_id != key,
        decreases cache.len() - i,
    {
        if i < cache.len() && cache[i].folder_id != key {
            Self::lemma_cache_index_range(cache, key, i + 1);
        }
    }

    proof fn lemma_cache_index_same_keys(
        a: Seq<FolderChatCache>,
        b: Seq<FolderChatCache>,
        key: Option<i32>,
        i: int,
    )
        requires
            0 <= i,
            a.len() == b.len(),
            forall|j: int| 0 <= j < a.len() ==> #[trigger] a[j].folder_id == b[j].folder_id,
        ensures
            Self::cache_index(a, key, i) == Self::cache_index(b, key, i),
        decreases a.len() - i,
    {
        if i < a.len() && a[i].folder_id != key {
            Self::lemma_cache_index_same_keys(a, b, key, i + 1);
        }
    }

    proof fn lemma_cache_index_push(
        a: Seq<FolderChatCache>,
        e: FolderChatCache,
        key: Option<i32>,
        i: int,
    )
        requires
            0 <= i <= a.len(),
        ensures
            Self::cache_index(a, key, i) != -1 ==> Self::cache_index(a.push(e), key, i)
                == Self::cache_index(a, key, i),
            Self::cache_index(a, key, i) == -1 ==> Self::cache_index(a.push(e), key, i) == if e.folder_id
                == key {
                a.len() as int
            } else {
                -1
            },
        decreases a.len() - i,
    {
        if i < a.len() {
            assert(a.push(e)[i] == a[i]);
            if a[i].folder_id != key {
                Self::lemma_cache_index_push(a, e, key, i + 1);
            }
        } else {
            assert(a.push(e)[i] == e);
            if e.folder_id != key {
                assert(Self::cache_index(a.push(e), key, i + 1) == -1);
            }
        }
    }

    fn find_cache_entry(&self, key: Option<i32>) -> (r: Option<usize>)
        ensures
            match r {
                Some(i) => i == Self::cache_index(self.folder_chat_cache@, key, 0) && i
                    < self.folder_chat_cache@.len(),
                None => Self::cache_index(self.folder_chat_cache@, key, 0) == -1,
            },
    {
        let mut i: usize = 0;
        while i < self.folder_chat_cache.len()
            invariant
                i <= self.folder_chat_cache@.len(),
                Self::cache_index(self.folder_chat_cache@, key, 0) == Self::cache_index(
                    self.folder_chat_cache@,
                    key,
                    i as int,
                ),
            decreases self.folder_chat_cache.len() - i,
        {
            if self.folder_chat_cache[i].folder_id == key {
                return Some(i);
            }
            i += 1;
        }
        None
    }

    /// Remembers the loaded chats for the folder at `folder_index`; other folders'
    /// entries are unchanged.
    pub fn cache_folder_chats_at(&mut self, folder_index: usize)
        ensures
            old(self).wf() ==> final(self).wf(),
            folder_index < old(self).folders@.len() ==> {
                let key = folder_filter_id_spec(old(self).folders@[folder_index as int]);
                &&& Self::cache_lookup(final(self).folder_chat_cache@, key) == Some(
                    old(self).chats@,
                )
                &&& forall|k: Option<i32>|
                    k != key ==> #[trigger] Self::cache_lookup(final(self).folder_chat_cache@, k)
                        == Self::cache_lookup(old(self).folder_chat_cache@, k)
            },
            folder_index >= old(self).folders@.len() ==> final(self).folder_chat_cache
                == old(self).folder_chat_cache,
            *final(self) == (AppState {
                folder_chat_cache: final(self).folder_chat_cache,
                ..*old(self)
            }),
    {
        if folder_index >= self.folders.len() {
            return ;
        }
        let key = folder_filter_id(&self.folders[folder_index]);
        let entry = FolderChatCache { folder_id: key, chats: crate::types::copy_chats(&self.chats) };
        let ghost before = self.folder_chat_cache@;
        match self.find_cache_entry(key) {
            Some(i) => {
                self.folder_chat_cache.set(i, entry);
                proof {
                    let after = self.folder_chat_cache@;
                    assert(after == before.update(i as int, entry));
                    Self::lemma_cache_index_range(before, key, 0);
                    assert forall|j: int| 0 <= j < before.len() implies #[trigger] before[j].folder_id
                        == after[j].folder_id by {}
                    assert forall|k: Option<i32>|
                        k != key implies #[trigger] Self::cache_lookup(after, k)
                        == Self::cache_lookup(before, k) by {
                        Self::lemma_cache_index_same_keys(before, after, k, 0);
                        Self::lemma_cache_index_range(before, k, 0);
                        let ci = Self::cache_index(before, k, 0);
                        if 0 <= ci < before.len() {
                            assert(ci != i);
                        }
                    }
                    Self::lemma_cache_index_same_keys(before, after, key, 0);
                }
            },
            None => {
                self.folder_chat_cache.push(entry);
                proof {
                    let after = self.folder_chat_cache@;
                    assert(after == before.push(entry));
                    Self::lemma_cache_index_push(before, entry, key, 0);
                    assert forall|k: Option<i32>|
                        k != key implies #[trigger] Self::cache_lookup(after, k)
                        == Self::cache_lookup(before, k) by {
                        Self::lemma_cache_index_push(before, entry, k, 0);
                        Self::lemma_cache_index_range(before, k, 0);
                    }
                }
            },
        }
    }

    /// Remembers the loaded chats for the selected folder.
    pub fn cache_selected_folder_chats(&mut self)
        ensures
            old(self).wf() ==> final(self).wf(),
            old(self).selected_folder_index < old(self).folders@.len() ==> {
                let key = old(self).selected_folder_filter_spec();
                &&& Self::cache_lookup(final(self).folder_chat_cache@, key) == Some(
                    old(self).chats@,
                )
                &&& forall|k: Option<i32>|
                    k != key ==> #[trigger] Self::cache_lookup(final(self).folder_chat_cache@, k)
                        == Self::cache_lookup(old(self).folder_chat_cache@, k)
            },
            *final(self) == (AppState {
                folder_chat_cache: final(self).folder_chat_cache,
                ..*old(self)
            }),
    {
        let i = self.selected_folder_index;
        self.cache_folder_chats_at(i);
    }

    /// Shows the chats cached for `folder_id`, from the top, when there are any.
    pub fn restore_cached_folder_chats(&mut self, folder_id: Option<i32>) -> (restored: bool)
        ensures
            old(self).wf() ==> final(self).wf(),
            restored == Self::cache_lookup(old(self).folder_chat_cache@, folder_id) is Some,
            restored ==> final(self).chats@ == Self::cache_lookup(
                old(self).folder_chat_cache@,
                folder_id,
            )->0 && *final(self) == (AppState {
                chats: final(self).chats,
                selected_chat_index: 0,
                chat_scroll_offset: 0,
                ..*old(self)
            }),
            !restored ==> *final(self) == *old(self),
    {
        match self.find_cache_entry(folder_id) {
            Some(i) => {
                let chats = crate::types::copy_chats(&self.folder_chat_cache[i].chats);
                self.chats = chats;
                self.selected_chat_index = 0;
                self.chat_scroll_offset = 0;
                true
            },
            None => false,
        }
    }

    // ----- compose modes -----

    /// Leaves editing and replying; the input is cleared.
    pub fn cancel_compose_mode(&mut self)
        ensures
            old(self).wf() ==> final(self).wf(),
            final(self).input_buffer@.len() == 0,
            *final(self) == (AppState {
                editing_message_id: None,
                replying_to_message_id: None,
                input_buffer: final(self).input_buffer,
                input_cursor: 0,
                ..*old(self)
            }),
    {
        self.editing_message_id = None;
        self.replying_to_message_id = None;
        self.clear_input();
    }

    /// Leaves the input: an edit or reply in progress is cancelled (clearing the input),
    /// a plain draft is kept, and the focus returns to the messages.
    pub fn cancel_input_mode(&mut self)
        ensures
            old(self).wf() ==> final(self).wf(),
            (old(self).editing_message_id is Some || old(self).replying_to_message_id is Some)
                ==> final(self).input_buffer@.len() == 0 && *final(self) == (AppState {
                editing_message_id: None,
                replying_to_message_id: None,
                input_buffer: final(self).input_buffer,
                input_cursor: 0,
                focused_panel: FocusedPanel::Messages,
                ..*old(self)
            }),
            !(old(self).editing_message_id is Some || old(self).replying_to_message_id is Some)
                ==> *final(self) == (AppState {
                focused_panel: FocusedPanel::Messages,
                ..*old(self)
            }),
    {
        if self.editing_message_id.is_some() || self.replying_to_message_id.is_some() {
            self.cancel_compose_mode();
        }
        self.focused_panel = FocusedPanel::Messages;
    }

    /// Starts editing the selected message when it can be edited: the input holds its
    /// text and takes the focus.
    pub fn request_edit_selected_message(&mut self)
        ensures
            old(self).wf() ==> final(self).wf(),
            edit_requested(*old(self), *final(self)),
    {
        if self.selected_message_index < self.messages.len() {
            let can_edit = self.messages[self.selected_message_index].can_edit;
            if can_edit {
                let id = self.messages[self.selected_message_index].id;
                let content = self.messages[self.selected_message_index].content.clone();
                self.editing_message_id = Some(id);
                self.replying_to_message_id = None;
                self.delete_confirmation = None;
                self.set_input(content.as_str());
                self.focused_panel = FocusedPanel::Input;
            }
        }
    }

    /// Starts replying to the selected message; the input takes the focus (an edit in
    /// progress is dropped together with its text).
    pub fn request_reply_to_selected_message(&mut self)
        ensures
            old(self).wf() ==> final(self).wf(),
            reply_requested(*old(self), *final(self)),
    {
        if self.selected_message_index < self.messages.len() {
            let id = self.messages[self.selected_message_index].id;
            if self.editing_message_id.is_some() {
                self.clear_input();
            }
            self.editing_message_id = None;
            self.replying_to_message_id = Some(id);
            self.delete_confirmation = None;
            self.focused_panel = FocusedPanel::Input;
        }
    }

    /// Asks to confirm deleting the selected message when it can be deleted.
    pub fn request_delete_selected_message(&mut self)
        ensures
            old(self).wf() ==> final(self).wf(),
            delete_requested(*old(self), *final(self)),
    {
        if self.selected_message_index < self.messages.len() {
            let m = &self.messages[self.selected_message_index];
            if m.can_delete {
                let c = DeleteConfirmation { chat_id: m.chat_id, message_id: m.id };
                self.delete_confirmation = Some(c);
            }
        }
    }

    /// The deletion waiting for confirmation.
    pub fn delete_confirmation(&self) -> (r: Option<DeleteConfirmation>)
        ensures
            r == self.delete_confirmation,
    {
        self.delete_confirmation
    }

    pub fn set_delete_confirmation(&mut self, confirmation: DeleteConfirmation)
        ensures
            old(self).wf() ==> final(self).wf(),
            *final(self) == (AppState { delete_confirmation: Some(confirmation), ..*old(self) }),
    {
        self.delete_confirmation = Some(confirmation);
    }

    pub fn cancel_delete_confirmation(&mut self)
        ensures
            old(self).wf() ==> final(self).wf(),
            *final(self) == (AppState { delete_confirmation: None, ..*old(self) }),
    {
        self.delete_confirmation = None;
    }

    /// Leaves the selected chat: an edit or reply in progress and a pending delete
    /// confirmation are dropped; a plain draft is kept.
    pub fn leave_selected_chat(&mut self)
        ensures
            old(self).wf() ==> final(self).wf(),
            (old(self).editing_message_id is Some || old(self).replying_to_message_id is Some)
                ==> final(self).input_buffer@.len() == 0 && *final(self) == (AppState {
                editing_message_id: None,
                replying_to_message_id: None,
                delete_confirmation: None,
                input_buffer: final(self).input_buffer,
                input_cursor: 0,
                ..*old(self)
            }),
            !(old(self).editing_message_id is Some || old(self).replying_to_message_id is Some)
                ==> *final(self) == (AppState { delete_confirmation: None, ..*old(self) }),
    {
        if self.editing_message_id.is_some() || self.replying_to_message_id.is_some() {
            self.cancel_compose_mode();
        }
        self.delete_confirmation = None;
    }

    // ----- conversation loading -----

    /// Drops the loaded messages and topics of the selected chat.
    pub fn clear_loaded_chat_messages(&mut self)
        ensures
            old(self).wf() ==> final(self).wf(),
            final(self).messages@.len() == 0,
            final(self).thread_topics@.len() == 0,
            *final(self) == (AppState {
                messages: final(self).messages,
                selected_message_index: 0,
                message_scroll_offset: 0,
                thread_topics: final(self).thread_topics,
                selected_thread_topic_index: 0,
                conversation_load_status: ConversationLoadStatus::Idle,
                ..*old(self)
            }),
    {
        self.messages = Vec::new();
        self.selected_message_index = 0;
        self.message_scroll_offset = 0;
        self.thread_topics = Vec::new();
        self.selected_thread_topic_index = 0;
        self.conversation_load_status = ConversationLoadStatus::Idle;
    }

    pub fn begin_conversation_load(&mut self)
        ensures
            old(self).wf() ==> final(self).wf(),
            *final(self) == (AppState {
                conversation_load_status: ConversationLoadStatus::Loading,
                ..*old(self)
            }),
    {
        self.conversation_load_status = ConversationLoadStatus::Loading;
    }

    pub fn mark_conversation_load_failed(&mut self)
        ensures
            old(self).wf() ==> final(self).wf(),
            *final(self) == (AppState {
                conversation_load_status: ConversationLoadStatus::Failed,
                ..*old(self)
            }),
    {
        self.conversation_load_status = ConversationLoadStatus::Failed;
    }

    /// Shows freshly loaded messages of the selected conversation, newest selected.
    pub fn apply_loaded_selected_chat_messages(&mut self, messages: Vec<Message>)
        ensures
            old(self).wf() ==> final(self).wf(),
            final(self).messages@ == messages@,
            *final(self) == (AppState {
                messages: final(self).messages,
                selected_message_index: Self::last_index(messages@.len()),
                message_scroll_offset: 0,
                conversation_load_status: ConversationLoadStatus::Loaded,
                ..*old(self)
            }),
    {
        let n = messages.len();
        self.messages = messages;
        self.selected_message_index = if n == 0 {
            0
        } else {
            n - 1
        };
        self.message_scroll_offset = 0;
        self.conversation_load_status = ConversationLoadStatus::Loaded;
    }

    /// Shows the loaded topics of the selected chat, the first one selected.
    pub fn apply_loaded_selected_chat_thread_topics(&mut self, topics: Vec<ThreadTopic>)
        ensures
            old(self).wf() ==> final(self).wf(),
            final(self).thread_topics@ == topics@,
            *final(self) == (AppState {
                thread_topics: final(self).thread_topics,
                selected_thread_topic_index: 0,
                ..*old(self)
            }),
    {
        self.thread_topics = topics;
        self.selected_thread_topic_index = 0;
    }

    /// Messages of `batch` older than the first loaded message (all of them when nothing
    /// is loaded), in batch order.
    pub open spec fn older_part(batch: Seq<Message>, first: Option<i32>, n: int) -> Seq<Message>
        decreases n,
    {
        if n <= 0 {
            Seq::empty()
        } else {
            let rest = Self::older_part(batch, first, n - 1);
            match first {
                Some(f) => if batch[n - 1].id < f {
                    rest.push(batch[n - 1])
                } else {
                    rest
                },
                None => rest.push(batch[n - 1]),
            }
        }
    }

    pub open spec fn first_id(messages: Seq<Message>) -> Option<i32> {
        if messages.len() > 0 {
            Some(messages[0].id)
        } else {
            None
        }
    }

    pub open spec fn shifted(i: usize, added: nat) -> usize {
        if i + added <= usize::MAX {
            (i + added) as usize
        } else {
            usize::MAX
        }
    }

    /// Puts older messages in front of the loaded ones, keeping the selected message and
    /// the scroll position on the same messages; returns how many were added.
    pub fn prepend_loaded_selected_chat_messages(&mut self, batch: Vec<Message>) -> (added: usize)
        ensures
            old(self).wf() && old(self).messages@.len() > 0 ==> final(self).wf(),
            added == Self::older_part(
                batch@,
                Self::first_id(old(self).messages@),
                batch@.len() as int,
            ).len(),
            final(self).messages@ == Self::older_part(
                batch@,
                Self::first_id(old(self).messages@),
                batch@.len() as int,
            ) + old(self).messages@,
            *final(self) == (AppState {
                messages: final(self).messages,
                selected_message_index: Self::shifted(old(self).selected_message_index, added as nat),
                message_scroll_offset: Self::shifted(old(self).message_scroll_offset, added as nat),
                ..*old(self)
            }),
    {
        let first: Option<i32> = if self.messages.len() > 0 {
            Some(self.messages[0].id)
        } else {
            None
        };
        let ghost b = batch@;
        let mut older: Vec<Message> = Vec::new();
        let mut batch = batch;
        let mut k: usize = 0;
        let n = batch.len();
        // take the batch apart from the back, then restore the order
        let mut taken: Vec<Message> = Vec::new();
        while batch.len() > 0
            invariant
                n == b.len(),
                batch@ == b.take(batch@.len() as int),
                taken@.len() + batch@.len() == n,
                forall|j: int| 0 <= j < taken@.len() ==> #[trigger] taken@[j] == b[n - 1 - j],
            decreases batch.len(),
        {
            let ghost before = batch@;
            let m = batch.pop().unwrap();
            assert(batch@ =~= b.take(batch@.len() as int));
            taken.push(m);
        }
        while k < n
            invariant
                n == b.len(),
                k <= n,
                taken@.len() + k == n,
                forall|j: int| 0 <= j < taken@.len() ==> #[trigger] taken@[j] == b[n - 1 - j],
                older@ == Self::older_part(b, first, k as int),
            decreases n - k,
        {
            let m = taken.pop().unwrap();
            assert(m == b[k as int]);
            let keep = match first {
                Some(f) => m.id < f,
                None => true,
            };
            if keep {
                older.push(m);
            }
            k += 1;
        }
        let added = older.len();
        let mut rest = Vec::new();
        std::mem::swap(&mut rest, &mut self.messages);
        let mut joined = older;
        joined.append(&mut rest);
        self.messages = joined;
        self.selected_message_index = if self.selected_message_index <= usize::MAX - added {
            self.selected_message_index + added
        } else {
            usize::MAX
        };
        self.message_scroll_offset = if self.message_scroll_offset <= usize::MAX - added {
            self.message_scroll_offset + added
        } else {
            usize::MAX
        };
        added
    }

    /// The selected conversation's scope: its chat and topic.
    pub open spec fn scope_spec(&self) -> Option<(i64, Option<i32>)> {
        match self.selected_chat_id_spec() {
            Some(c) => Some((c, self.selected_topic_id_spec())),
            None => None,
        }
    }

    /// Whether the selected conversation's older history is known to be fully loaded.
    pub fn selected_chat_older_history_exhausted(&self) -> (r: bool)
        ensures
            r == match self.scope_spec() {
                Some(scope) => self.exhausted_history@.contains(scope),
                None => false,
            },
    {
        let chat = match self.selected_chat_id() {
            Some(c) => c,
            None => return false,
        };
        let topic = self.selected_thread_topic_id();
        assert(self.scope_spec() == Some((chat, topic)));
        let mut i: usize = 0;
        while i < self.exhausted_history.len()
            invariant
                i <= self.exhausted_history@.len(),
                self.scope_spec() == Some((chat, topic)),
                forall|j: int| 0 <= j < i ==> self.exhausted_history@[j] != (chat, topic),
            decreases self.exhausted_history.len() - i,
        {
            let (c, t) = self.exhausted_history[i];
            if c == chat && opt_i32_eq(t, topic) {
                assert(self.exhausted_history@[i as int] == (chat, topic));
                assert(self.exhausted_history@.contains((chat, topic)));
                return true;
            }
            i += 1;
        }
        false
    }

    /// Records that the selected conversation has no older history.
    pub fn mark_selected_chat_older_history_exhausted(&mut self)
        ensures
            old(self).wf() ==> final(self).wf(),
            match old(self).scope_spec() {
                Some(scope) => final(self).exhausted_history@ == old(self).exhausted_history@.push(scope),
                None => final(self).exhausted_history@ == old(self).exhausted_history@,
            },
            *final(self) == (AppState {
                exhausted_history: final(self).exhausted_history,
                ..*old(self)
            }),
    {
        if let Some(chat) = self.selected_chat_id() {
            let topic = self.selected_thread_topic_id();
            self.exhausted_history.push((chat, topic));
        }
    }

    // ----- message outcomes -----

    /// Whether a message with this chat and id is loaded.
    pub fn has_message_identity(&self, chat_id: i64, message_id: i32) -> (r: bool)
        ensures
            r == exists|j: int|
                0 <= j < self.messages@.len() && #[trigger] self.messages@[j].chat_id == chat_id
                    && self.messages@[j].id == message_id,
    {
        let mut i: usize = 0;
        while i < self.messages.len()
            invariant
                i <= self.messages@.len(),
                forall|j: int|
                    0 <= j < i ==> !(#[trigger] self.messages@[j].chat_id == chat_id
                        && self.messages@[j].id == message_id),
            decreases self.messages.len() - i,
        {
            if self.messages[i].chat_id == chat_id && self.messages[i].id == message_id {
                return true;
            }
            i += 1;
        }
        false
    }

    /// The messages other than the one named by `confirmation`.
    pub open spec fn without_message(msgs: Seq<Message>, confirmation: DeleteConfirmation, n: int) -> Seq<
        Message,
    >
        decreases n,
    {
        if n <= 0 {
            Seq::empty()
        } else {
            let rest = Self::without_message(msgs, confirmation, n - 1);
            if msgs[n - 1].chat_id == confirmation.chat_id && msgs[n - 1].id
                == confirmation.message_id {
                rest
            } else {
                rest.push(msgs[n - 1])
            }
        }
    }

    /// A selection moved back inside a list of `len` items.
    pub open spec fn clamp_index(index: usize, len: nat) -> usize {
        if len == 0 {
            0
        } else if index < len {
            index
        } else {
            (len - 1) as usize
        }
    }

    /// The confirmed message is gone: it leaves the loaded messages, the selection stays
    /// inside them and the deletion is reported.
    pub fn apply_delete_success(&mut self, confirmation: DeleteConfirmation)
        ensures
            old(self).wf() ==> final(self).wf(),
            final(self).messages@ == Self::without_message(
                old(self).messages@,
                confirmation,
                old(self).messages@.len() as int,
            ),
            final(self).status_message is Some && final(self).status_message->0@
                == MESSAGE_DELETED_STATUS@,
            *final(self) == (AppState {
                messages: final(self).messages,
                selected_message_index: Self::clamp_index(
                    old(self).selected_message_index,
                    final(self).messages@.len(),
                ),
                delete_confirmation: None,
                status_message: final(self).status_message,
                error_message: None,
                ..*old(self)
            }),
    {
        let mut kept: Vec<Message> = Vec::new();
        let mut i: usize = 0;
        while i < self.messages.len()
            invariant
                i <= self.messages@.len(),
                kept@ == Self::without_message(self.messages@, confirmation, i as int),
            decreases self.messages.len() - i,
        {
            let m = &self.messages[i];
            if !(m.chat_id == confirmation.chat_id && m.id == confirmation.message_id) {
                kept.push(m.copy());
            }
            i += 1;
        }
        let n = kept.len();
        self.messages = kept;
        self.selected_message_index = if n == 0 {
            0
        } else if self.selected_message_index < n {
            self.selected_message_index
        } else {
            n - 1
        };
        self.delete_confirmation = None;
        self.set_status(MESSAGE_DELETED_STATUS);
    }

    pub fn apply_delete_failure(&mut self, error: String)
        ensures
            old(self).wf() ==> final(self).wf(),
            *final(self) == (AppState {
                status_message: None,
                error_message: Some(error),
                ..*old(self)
            }),
    {
        self.set_error(error);
    }

    /// The message with id `id` now reads `content` and is marked edited.
    pub open spec fn edited_message(m: Message, id: i32, content: String) -> Message {
        if m.id == id {
            Message { content: content, is_edited: true, ..m }
        } else {
            m
        }
    }

    /// The edit was saved: the message shows the new text and editing ends.
    pub fn apply_edit_success(&mut self, message_id: i32, content: String)
        ensures
            old(self).wf() ==> final(self).wf(),
            final(self).messages@ == old(self).messages@.map_values(
                |m: Message| Self::edited_message(m, message_id, content),
            ),
            final(self).input_buffer@.len() == 0,
            *final(self) == (AppState {
                messages: final(self).messages,
                editing_message_id: None,
                input_buffer: final(self).input_buffer,
                input_cursor: 0,
                status_message: None,
                ..*old(self)
            }),
    {
        let mut updated: Vec<Message> = Vec::new();
        let mut i: usize = 0;
        while i < self.messages.len()
            invariant
                i <= self.messages@.len(),
                updated@ == self.messages@.take(i as int).map_values(
                    |m: Message| Self::edited_message(m, message_id, content),
                ),
            decreases self.messages.len() - i,
        {
            let m = &self.messages[i];
            let next = if m.id == message_id {
                let mut c = m.copy();
                c.content = content.clone();
                c.is_edited = true;
                c
            } else {
                m.copy()
            };
            updated.push(next);
            i += 1;
            assert(updated@ =~= self.messages@.take(i as int).map_values(
                |m: Message| Self::edited_message(m, message_id, content),
            ));
        }
        assert(self.messages@.take(self.messages@.len() as int) =~= self.messages@);
        self.messages = updated;
        self.editing_message_id = None;
        self.clear_input();
        self.status_message = None;
    }

    pub fn apply_edit_failure(&mut self, error: String)
        ensures
            old(self).wf() ==> final(self).wf(),
            *final(self) == (AppState {
                status_message: None,
                error_message: Some(error),
                ..*old(self)
            }),
    {
        self.set_error(error);
    }

    /// The reply was sent: it is shown last and selected, and replying ends.
    pub fn apply_reply_success(&mut self, message: Message)
        ensures
            old(self).wf() ==> final(self).wf(),
            final(self).messages@ == old(self).messages@.push(message),
            final(self).input_buffer@.len() == 0,
            *final(self) == (AppState {
                messages: final(self).messages,
                selected_message_index: old(self).messages@.len() as usize,
                replying_to_message_id: None,
                input_buffer: final(self).input_buffer,
                input_cursor: 0,
                status_message: None,
                ..*old(self)
            }),
    {
        let n = self.messages.len();
        self.messages.push(message);
        self.selected_message_index = n;
        self.replying_to_message_id = None;
        self.clear_input();
        self.status_message = None;
    }

    pub fn apply_reply_failure(&mut self, error: String)
        ensures
            old(self).wf() ==> final(self).wf(),
            *final(self) == (AppState {
                status_message: None,
                error_message: Some(error),
                ..*old(self)
            }),
    {
        self.set_error(error);
    }

    /// The message shown while a send to `chat_id` is on its way.
    pub open spec fn pending_message(
        temp_id: i32,
        chat_id: i64,
        thread_top_message_id: Option<i32>,
        content: String,
        sender: String,
        timestamp: i64,
    ) -> Message {
        Message {
            id: temp_id,
            chat_id: chat_id,
            thread_topic_id: thread_top_message_id,
            sender_identity: None,
            sender_name: sender,
            content: content,
            timestamp: timestamp,
            is_own: true,
            is_edited: false,
            reply_to_content: None,
            media: None,
            status: MessageStatus::Sending,
            can_edit: false,
            can_delete: false,
            error: None,
        }
    }

    /// The chat's preview line becomes `content`.
    pub open spec fn with_last_message(c: Chat, chat_id: i64, content: String) -> Chat {
        if c.id == chat_id {
            Chat { last_message: Some(content), ..c }
        } else {
            c
        }
    }

    /// Takes the next id for a message that is still being sent: -1, -2, … wrapping back
    /// to -1 after the smallest `i32`.
    /// The temporary id handed out after `id`: the next one below it, starting again at
    /// -1 when the ids ran out (or `id` was not a temporary id).
    pub open spec fn temp_id_after(id: i32) -> i32 {
        if id == i32::MIN || id >= 0 {
            -1i32
        } else {
            (id - 1) as i32
        }
    }

    pub fn take_temp_id(&mut self) -> (id: i32)
        ensures
            old(self).wf() ==> final(self).wf(),
            id == old(self).next_temp_id,
            *final(self) == (AppState {
                next_temp_id: Self::temp_id_after(old(self).next_temp_id),
                ..*old(self)
            }),
    {
        let id = self.next_temp_id;
        self.next_temp_id = if id == i32::MIN || id >= 0 {
            -1
        } else {
            id - 1
        };
        id
    }

    /// Shows a message that is being sent: appended and selected, and the chat's preview
    /// line updated.
    pub fn apply_send_pending(
        &mut self,
        temp_id: i32,
        chat_id: i64,
        thread_top_message_id: Option<i32>,
        content: String,
        timestamp: i64,
    )
        ensures
            final(self).messages@.len() == old(self).messages@.len() + 1,
            final(self).messages@.drop_last() == old(self).messages@,
            final(self).messages@.last().sender_name@ == OWN_SENDER_NAME@,
            final(self).messages@.last() == Self::pending_message(
                temp_id,
                chat_id,
                thread_top_message_id,
                content,
                final(self).messages@.last().sender_name,
                timestamp,
            ),
            final(self).chats@ == old(self).chats@.map_values(
                |c: Chat| Self::with_last_message(c, chat_id, content),
            ),
            *final(self) == (AppState {
                messages: final(self).messages,
                selected_message_index: old(self).messages@.len() as usize,
                chats: final(self).chats,
                ..*old(self)
            }),
    {
        let mut chats: Vec<Chat> = Vec::new();
        let mut i: usize = 0;
        while i < self.chats.len()
            invariant
                i <= self.chats@.len(),
                chats@ == self.chats@.take(i as int).map_values(
                    |c: Chat| Self::with_last_message(c, chat_id, content),
                ),
            decreases self.chats.len() - i,
        {
            let mut c = self.chats[i].copy();
            if c.id == chat_id {
                c.last_message = Some(content.clone());
            }
            chats.push(c);
            i += 1;
            assert(chats@ =~= self.chats@.take(i as int).map_values(
                |c: Chat| Self::with_last_message(c, chat_id, content),
            ));
        }
        assert(self.chats@.take(self.chats@.len() as int) =~= self.chats@);
        self.chats = chats;
        let m = Message {
            id: temp_id,
            chat_id,
            thread_topic_id: thread_top_message_id,
            sender_identity: None,
            sender_name: String::from_str(OWN_SENDER_NAME),
            content,
            timestamp,
            is_own: true,
            is_edited: false,
            reply_to_content: None,
            media: None,
            status: MessageStatus::Sending,
            can_edit: false,
            can_delete: false,
            error: None,
        };
        let n = self.messages.len();
        self.messages.push(m);
        self.selected_message_index = n;
    }

    /// The message sent under `temp_id` as the server returned it.
    pub open spec fn sent_message(m: Message, temp_id: i32, sent: Message) -> Message {
        if m.id == temp_id {
            sent
        } else {
            m
        }
    }

    /// The send finished: the pending message is replaced by the sent one.
    pub fn apply_send_success(&mut self, temp_id: i32, sent: Message)
        ensures
            old(self).wf() ==> final(self).wf(),
            final(self).messages@ == old(self).messages@.map_values(
                |m: Message| Self::sent_message(m, temp_id, sent),
            ),
            *final(self) == (AppState {
                messages: final(self).messages,
                status_message: None,
                ..*old(self)
            }),
    {
        let mut updated: Vec<Message> = Vec::new();
        let mut i: usize = 0;
        while i < self.messages.len()
            invariant
                i <= self.messages@.len(),
                updated@ == self.messages@.take(i as int).map_values(
                    |m: Message| Self::sent_message(m, temp_id, sent),
                ),
            decreases self.messages.len() - i,
        {
            let next = if self.messages[i].id == temp_id {
                sent.copy()
            } else {
                self.messages[i].copy()
            };
            updated.push(next);
            i += 1;
            assert(updated@ =~= self.messages@.take(i as int).map_values(
                |m: Message| Self::sent_message(m, temp_id, sent),
            ));
        }
        assert(self.messages@.take(self.messages@.len() as int) =~= self.messages@);
        self.messages = updated;
        self.status_message = None;
    }

    /// The message sent under `temp_id` marked as failed with `error`.
    pub open spec fn failed_message(m: Message, temp_id: i32, error: String) -> Message {
        if m.id == temp_id {
            Message { status: MessageStatus::Failed, error: Some(error), ..m }
        } else {
            m
        }
    }

    /// The send failed: the pending message is marked failed and the error is shown.
    pub fn apply_send_failure(&mut self, temp_id: i32, error: String)
        ensures
            old(self).wf() ==> final(self).wf(),
            final(self).messages@ == old(self).messages@.map_values(
                |m: Message| Self::failed_message(m, temp_id, error),
            ),
            *final(self) == (AppState {
                messages: final(self).messages,
                status_message: None,
                error_message: Some(error),
                ..*old(self)
            }),
    {
        let mut updated: Vec<Message> = Vec::new();
        let mut i: usize = 0;
        while i < self.messages.len()
            invariant
                i <= self.messages@.len(),
                updated@ == self.messages@.take(i as int).map_values(
                    |m: Message| Self::failed_message(m, temp_id, error),
                ),
            decreases self.messages.len() - i,
        {
            let mut next = self.messages[i].copy();
            if next.id == temp_id {
                next.status = MessageStatus::Failed;
                next.error = Some(error.clone());
            }
            updated.push(next);
            i += 1;
            assert(updated@ =~= self.messages@.take(i as int).map_values(
                |m: Message| Self::failed_message(m, temp_id, error),
            ));
        }
        assert(self.messages@.take(self.messages@.len() as int) =~= self.messages@);
        self.messages = updated;
        self.set_error(error);
    }
}

/// Editing starts on the selected message when it can be edited: the input holds its text
/// and takes the focus; otherwise nothing changes.
pub open spec fn edit_requested(old: AppState, new: AppState) -> bool {
    match old.selected_message_spec() {
        Some(m) => if m.can_edit {
            &&& new.input_buffer@ == m.content@
            &&& new == (AppState {
                editing_message_id: Some(m.id),
                replying_to_message_id: None,
                delete_confirmation: None,
                input_buffer: new.input_buffer,
                input_cursor: m.content@.len() as usize,
                focused_panel: FocusedPanel::Input,
                ..old
            })
        } else {
            new == old
        },
        None => new == old,
    }
}

/// Replying starts to the selected message and the input takes the focus (an edit in
/// progress is dropped with its text); without a selected message nothing changes.
pub open spec fn reply_requested(old: AppState, new: AppState) -> bool {
    match old.selected_message_spec() {
        Some(m) => {
            &&& old.editing_message_id is Some ==> new.input_buffer@.len() == 0
                && new.input_cursor == 0
            &&& old.editing_message_id is None ==> new.input_buffer == old.input_buffer
                && new.input_cursor == old.input_cursor
            &&& new == (AppState {
                editing_message_id: None,
                replying_to_message_id: Some(m.id),
                delete_confirmation: None,
                input_buffer: new.input_buffer,
                input_cursor: new.input_cursor,
                focused_panel: FocusedPanel::Input,
                ..old
            })
        },
        None => new == old,
    }
}

/// The selected message waits for delete confirmation when it can be deleted; otherwise
/// nothing changes.
pub open spec fn delete_requested(old: AppState, new: AppState) -> bool {
    match old.selected_message_spec() {
        Some(m) => if m.can_delete {
            new == (AppState {
                delete_confirmation: Some(DeleteConfirmation { chat_id: m.chat_id, message_id: m.id }),
                ..old
            })
        } else {
            new == old
        },
        None => new == old,
    }
}

/// Equality of optional ids.
pub fn opt_i32_eq(a: Option<i32>, b: Option<i32>) -> (r: bool)
    ensures
        r == (a == b),
{
    match (a, b) {
        (Some(x), Some(y)) => x == y,
        (None, None) => true,
        _ => false,
    }
}

/// The chat filter of a folder: its id, or none for the all-chats folder.
pub open spec fn folder_filter_id_spec(folder: Folder) -> Option<i32> {
    if folder.id != ALL_FOLDER_ID {
        Some(folder.id)
    } else {
        None
    }
}

pub fn folder_filter_id(folder: &Folder) -> (r: Option<i32>)
    ensures
        r == folder_filter_id_spec(*folder),
{
    if folder.id != ALL_FOLDER_ID {
        Some(folder.id)
    } else {
        None
    }
}

} // verus!
