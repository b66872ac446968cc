//! Messages arriving while the client runs, and the gap they can open between the loaded
//! window of the open conversation and its newest messages.

use crate::state::{AppState, ConversationLoadStatus, GapSubmit, MessageSubmitAction};
use crate::types::{Chat, Message, ThreadTopic, Update};
use vstd::prelude::*;

verus! {

/// Most messages of a conversation kept loaded while the user reads older ones; a message
/// arriving then is left out and a gap opens instead.
pub const MESSAGE_WINDOW_LIMIT: usize = 500;

/// A new message shown at the end of the open conversation, to be marked read.
#[derive(Debug, Clone, Copy, PartialEq, Eq, Structural)]
pub struct PresentedMessage {
    pub chat_id: i64,
    pub topic_id: Option<i32>,
    pub message_id: i32,
}

/// One more unread message, stopping at the largest count.
pub open spec fn bump(n: u32) -> u32 {
    if n < u32::MAX {
        (n + 1) as u32
    } else {
        n
    }
}

/// The chat after message `m` arrived: its preview line is the message, and an unseen
/// message counts as unread.
pub open spec fn chat_after_incoming(c: Chat, m: Message, unseen: bool) -> Chat {
    if c.id == m.chat_id {
        Chat {
            last_message: Some(m.content),
            unread_count: if unseen { bump(c.unread_count) } else { c.unread_count },
            ..c
        }
    } else {
        c
    }
}

/// The topic after an unseen message of the topic `topic_id` arrived.
pub open spec fn topic_after_unseen(t: ThreadTopic, topic_id: Option<i32>) -> ThreadTopic {
    if topic_id == Some(t.id) {
        ThreadTopic { unread_count: bump(t.unread_count), ..t }
    } else {
        t
    }
}

/// The next generation of the newer history.
pub open spec fn next_generation(g: u64) -> u64 {
    if g < u64::MAX {
        (g + 1) as u64
    } else {
        0
    }
}

impl AppState {
    /// The message belongs to what is shown: the selected chat and topic.
    pub open spec fn in_view(&self, m: Message) -> bool {
        self.selected_chat_id_spec() == Some(m.chat_id) && self.selected_topic_id_spec() == m.thread_topic_id
    }

    /// The selection is on the last loaded message, or nothing is loaded.
    pub open spec fn at_tail(&self) -> bool {
        self.messages@.len() == 0 || self.selected_message_index + 1 == self.messages@.len()
    }

    /// A message with this chat and id is loaded.
    pub open spec fn has_identity(&self, m: Message) -> bool {
        exists|j: int| 0 <= j < self.messages@.len() && #[trigger] self.messages@[j].chat_id == m.chat_id
            && self.messages@[j].id == m.id
    }

    /// The chats and, for the selected chat, the topics, after `m` arrived.
    pub open spec fn counted(&self, new: AppState, m: Message, unseen: bool) -> bool {
        &&& new.chats@ == self.chats@.map_values(|c: Chat| chat_after_incoming(c, m, unseen))
        &&& new.thread_topics@ == if unseen && self.selected_chat_id_spec() == Some(m.chat_id) {
            self.thread_topics@.map_values(|t: ThreadTopic| topic_after_unseen(t, m.thread_topic_id))
        } else {
            self.thread_topics@
        }
    }
}

/// What a new message does. One of the open conversation that is already loaded changes
/// nothing. One of the open conversation is appended and selected when the selection is on
/// the last message, and returned to be marked read; while the user reads older messages
/// it is appended unread, or, with a gap already open or the window full, left out unread,
/// opening the gap and moving its generation on. Any other message counts as unread in its
/// chat (and topic, for the selected chat). The chat's preview line shows the message.
pub open spec fn incoming_applied(old: AppState, new: AppState, m: Message, r: Option<PresentedMessage>) -> bool {
    if old.in_view(m) && old.has_identity(m) {
        r is None && new == old
    } else if old.in_view(m) && !old.newer_history_gap && old.at_tail() {
        &&& r == Some(PresentedMessage { chat_id: m.chat_id, topic_id: m.thread_topic_id, message_id: m.id })
        &&& new.messages@ == old.messages@.push(m)
        &&& old.counted(new, m, false)
        &&& new == (AppState {
            messages: new.messages,
            chats: new.chats,
            thread_topics: new.thread_topics,
            selected_message_index: old.messages@.len() as usize,
            ..old
        })
    } else if old.in_view(m) && !old.newer_history_gap && old.messages@.len() < MESSAGE_WINDOW_LIMIT {
        &&& r is None
        &&& new.messages@ == old.messages@.push(m)
        &&& old.counted(new, m, true)
        &&& new == (AppState { messages: new.messages, chats: new.chats, thread_topics: new.thread_topics, ..old })
    } else if old.in_view(m) {
        &&& r is None
        &&& old.counted(new, m, true)
        &&& new == (AppState {
            chats: new.chats,
            thread_topics: new.thread_topics,
            newer_history_gap: true,
            newer_history_generation: next_generation(old.newer_history_generation),
            ..old
        })
    } else {
        &&& r is None
        &&& old.counted(new, m, true)
        &&& new == (AppState { chats: new.chats, thread_topics: new.thread_topics, ..old })
    }
}

/// A message of the open conversation left out of the window moves the generation of the
/// newer history on, so a refresh asked for before it no longer matches; a message shown
/// or counted elsewhere leaves the generation as it was.
pub proof fn lemma_left_out_message_moves_generation(old: AppState, new: AppState, m: Message, r: Option<PresentedMessage>)
    requires
        incoming_applied(old, new, m, r),
    ensures
        (old.in_view(m) && !old.has_identity(m) && (old.newer_history_gap || (!old.at_tail()
            && old.messages@.len() >= MESSAGE_WINDOW_LIMIT))) ==> new.newer_history_gap
            && new.newer_history_generation != old.newer_history_generation && new.messages == old.messages,
        !(old.in_view(m) && !old.has_identity(m) && (old.newer_history_gap || (!old.at_tail()
            && old.messages@.len() >= MESSAGE_WINDOW_LIMIT))) ==> new.newer_history_generation
            == old.newer_history_generation && new.newer_history_gap == old.newer_history_gap,
{
}

fn count_chats(chats: &Vec<Chat>, m: &Message, unseen: bool) -> (r: Vec<Chat>)
    ensures
        r@ == chats@.map_values(|c: Chat| chat_after_incoming(c, *m, unseen)),
{
    let mut r: Vec<Chat> = Vec::new();
    let mut i: usize = 0;
    while i < chats.len()
        invariant
            i <= chats@.len(),
            r@ == chats@.take(i as int).map_values(|c: Chat| chat_after_incoming(c, *m, unseen)),
        decreases chats.len() - i,
    {
        let mut c = chats[i].copy();
        if c.id == m.chat_id {
            c.last_message = Some(m.content.clone());
            if unseen && c.unread_count < u32::MAX {
                c.unread_count = c.unread_count + 1;
            }
        }
        r.push(c);
        i += 1;
        assert(r@ =~= chats@.take(i as int).map_values(|c: Chat| chat_after_incoming(c, *m, unseen)));
    }
    assert(chats@.take(chats@.len() as int) =~= chats@);
    r
}

fn count_topics(topics: &Vec<ThreadTopic>, topic_id: Option<i32>) -> (r: Vec<ThreadTopic>)
    ensures
        r@ == topics@.map_values(|t: ThreadTopic| topic_after_unseen(t, topic_id)),
{
    let mut r: Vec<ThreadTopic> = Vec::new();
    let mut i: usize = 0;
    while i < topics.len()
        invariant
            i <= topics@.len(),
            r@ == topics@.take(i as int).map_values(|t: ThreadTopic| topic_after_unseen(t, topic_id)),
        decreases topics.len() - i,
    {
        let mut t = topics[i].copy();
        let matches = match topic_id {
            Some(id) => id == t.id,
            None => false,
        };
        if matches && t.unread_count < u32::MAX {
            t.unread_count = t.unread_count + 1;
        }
        r.push(t);
        i += 1;
        assert(r@ =~= topics@.take(i as int).map_values(|t: ThreadTopic| topic_after_unseen(t, topic_id)));
    }
    assert(topics@.take(topics@.len() as int) =~= topics@);
    r
}

impl AppState {
    /// Whether newer messages of the open conversation were left out.
    pub fn newer_history_gap(&self) -> (r: bool)
        ensures
            r == self.newer_history_gap,
    {
        self.newer_history_gap
    }

    /// How many times the set of left-out messages changed.
    pub fn newer_history_generation(&self) -> (r: u64)
        ensures
            r == self.newer_history_generation,
    {
        self.newer_history_generation
    }

    /// Whether the selection is on the last loaded message.
    pub fn selected_message_is_last(&self) -> (r: bool)
        ensures
            r == (self.messages@.len() > 0 && self.selected_message_index + 1 == self.messages@.len()),
    {
        self.messages.len() > 0 && self.selected_message_index < self.messages.len()
            && self.selected_message_index + 1 == self.messages.len()
    }

    fn count_incoming(&mut self, m: &Message, unseen: bool)
        ensures
            old(self).wf() ==> final(self).wf(),
            old(self).counted(*final(self), *m, unseen),
            *final(self) == (AppState { chats: final(self).chats, thread_topics: final(self).thread_topics, ..*old(self) }),
    {
        let in_selected_chat = match self.selected_chat_id() {
            Some(id) => id == m.chat_id,
            None => false,
        };
        self.chats = count_chats(&self.chats, m, unseen);
        if unseen && in_selected_chat {
            self.thread_topics = count_topics(&self.thread_topics, m.thread_topic_id);
        }
    }

    /// Applies an update: a new message (see `incoming_applied`), or an error of the
    /// update stream, which is shown. Returns the message to mark read, if one was shown
    /// at the end of the open conversation.
    pub fn apply_update(&mut self, update: Update) -> (r: Option<PresentedMessage>)
        ensures
            old(self).wf() ==> final(self).wf(),
            match update {
                Update::NewMessage(m) => incoming_applied(*old(self), *final(self), m, r),
                Update::Error(e) => r is None && *final(self) == (AppState {
                    status_message: None,
                    error_message: Some(e),
                    ..*old(self)
                }),
            },
    {
        let m = match update {
            Update::NewMessage(m) => m,
            Update::Error(error) => {
                self.set_error(error);
                return None;
            },
        };
        let in_view = match self.selected_chat_id() {
            Some(id) => id == m.chat_id && crate::state::opt_i32_eq(self.selected_thread_topic_id(), m.thread_topic_id),
            None => false,
        };
        if !in_view {
            self.count_incoming(&m, true);
            return None;
        }
        if self.has_message_identity(m.chat_id, m.id) {
            return None;
        }
        let len = self.messages.len();
        let at_tail = len == 0 || (self.selected_message_index < len && self.selected_message_index + 1 == len);
        if !self.newer_history_gap && at_tail {
            let presented = PresentedMessage { chat_id: m.chat_id, topic_id: m.thread_topic_id, message_id: m.id };
            self.count_incoming(&m, false);
            self.messages.push(m);
            self.selected_message_index = len;
            return Some(presented);
        }
        if !self.newer_history_gap && len < MESSAGE_WINDOW_LIMIT {
            self.count_incoming(&m, true);
            self.messages.push(m);
            return None;
        }
        self.count_incoming(&m, true);
        self.newer_history_gap = true;
        self.newer_history_generation = if self.newer_history_generation < u64::MAX {
            self.newer_history_generation + 1
        } else {
            0
        };
        None
    }

    /// Shows the newest messages of the open conversation after a refresh across the gap:
    /// they replace the loaded window, the newest is selected and the gap closes.
    pub fn apply_refreshed_selected_chat_messages(&mut self, messages: Vec<Message>)
        ensures
            old(self).wf() ==> final(self).wf(),
            final(self).messages@ == messages@,
            *final(self) == (AppState {
                messages: final(self).messages,
                selected_message_index: AppState::last_index(messages@.len()),
                message_scroll_offset: 0,
                conversation_load_status: ConversationLoadStatus::Loaded,
                newer_history_gap: false,
                ..*old(self)
            }),
    {
        self.apply_loaded_selected_chat_messages(messages);
        self.newer_history_gap = false;
    }

    /// Holds `action` back until the refresh of request `request_id` for this chat and
    /// topic has loaded.
    pub fn queue_gap_submit(&mut self, action: MessageSubmitAction, request_id: u64, chat_id: i64, topic_id: Option<i32>)
        ensures
            old(self).wf() ==> final(self).wf(),
            final(self).gap_submit matches Some(g) && g.action == action && g.request_id == request_id
                && g.chat_id == chat_id && g.topic_id == topic_id && !g.ready,
            *final(self) == (AppState { gap_submit: final(self).gap_submit, ..*old(self) }),
    {
        self.gap_submit = Some(GapSubmit { action, request_id, chat_id, topic_id, ready: false });
    }

    /// Whether a send or reply is held back.
    pub fn gap_submit_pending(&self) -> (r: bool)
        ensures
            r == (self.gap_submit is Some),
    {
        self.gap_submit.is_some()
    }

    /// Drops the held-back send or reply of request `request_id`, if that is the one.
    pub fn cancel_gap_submit_for_request(&mut self, request_id: u64)
        ensures
            old(self).wf() ==> final(self).wf(),
            (old(self).gap_submit matches Some(g) && g.request_id == request_id)
                ==> *final(self) == (AppState { gap_submit: None, ..*old(self) }),
            !(old(self).gap_submit matches Some(g) && g.request_id == request_id) ==> *final(self) == *old(self),
    {
        let matches = match &self.gap_submit {
            Some(g) => g.request_id == request_id,
            None => false,
        };
        if matches {
            self.gap_submit = None;
        }
    }

    /// The refresh of request `request_id` for this chat and topic has loaded: its held-back
    /// send or reply may go.
    pub fn mark_gap_submit_ready(&mut self, request_id: u64, chat_id: i64, topic_id: Option<i32>)
        ensures
            old(self).wf() ==> final(self).wf(),
            (old(self).gap_submit matches Some(g) && g.request_id == request_id && g.chat_id == chat_id && g.topic_id == topic_id)
                ==> *final(self) == (AppState {
                gap_submit: Some(GapSubmit { ready: true, ..old(self).gap_submit->0 }),
                ..*old(self)
            }),
            !(old(self).gap_submit matches Some(g) && g.request_id == request_id && g.chat_id == chat_id && g.topic_id == topic_id)
                ==> *final(self) == *old(self),
    {
        if let Some(g) = &mut self.gap_submit {
            let same_topic = match (g.topic_id, topic_id) {
                (Some(a), Some(b)) => a == b,
                (None, None) => true,
                _ => false,
            };
            if g.request_id == request_id && g.chat_id == chat_id && same_topic {
                g.ready = true;
            }
        }
    }

    /// Takes the held-back send or reply once it may go.
    pub fn take_ready_gap_submit(&mut self) -> (r: Option<MessageSubmitAction>)
        ensures
            old(self).wf() ==> final(self).wf(),
            (old(self).gap_submit matches Some(g) && g.ready) ==> r == Some(old(self).gap_submit->0.action)
                && *final(self) == (AppState { gap_submit: None, ..*old(self) }),
            !(old(self).gap_submit matches Some(g) && g.ready) ==> r is None && *final(self) == *old(self),
    {
        let ready = match &self.gap_submit {
            Some(g) => g.ready,
            None => false,
        };
        if !ready {
            return None;
        }
        match self.gap_submit.take() {
            Some(g) => Some(g.action),
            None => None,
        }
    }
}

} // verus!
