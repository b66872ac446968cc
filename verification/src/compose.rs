//! Submitting the message input: what Enter sends, saves or replies, and the work that
//! leaves for the event loop.

use crate::actions::{apply_reply_message_result as apply_reply_to_state, begin_send_message, reply_result_shown, PendingSend};
use crate::app::App;
use crate::input_keys::{handle_input_key, input_edit_applied, input_edit_for, input_outcome_for, InputKeyOutcome};
use crate::keys::KeyEvent;
use crate::session::{
    show_progress, status_reported, REFRESHING_LATEST_BEFORE_SEND_STATUS, SAVING_EDIT_STATUS, SENDING_MESSAGE_STATUS,
    SENDING_REPLY_STATUS,
};
use crate::state::{opt_i32_eq, AppState, MessageSubmitAction};
use crate::text::{chars_eq, string_of, trim_chars, trim_spec};
use crate::types::{Chat, Message};
use vstd::prelude::*;

verus! {

/// `a` is what submitting the input of `s` does: the trimmed input is saved as the edit of
/// the message being edited, sent as a reply to the message being replied to (in the
/// selected topic), or else sent to the selected chat (in the selected topic).
pub open spec fn submit_action_matches(s: AppState, a: MessageSubmitAction) -> bool {
    let chat_id = s.selected_chat_id_spec()->0;
    let topic = s.selected_topic_id_spec();
    let text = trim_spec(s.input_buffer@);
    match s.editing_message_id {
        Some(id) => a matches MessageSubmitAction::Edit { chat_id: c, message_id: m, content }
            && c == chat_id && m == id && content@ == text,
        None => match s.replying_to_message_id {
            Some(id) => a matches MessageSubmitAction::Reply { chat_id: c, thread_top_message_id: t, message_id: m, content }
                && c == chat_id && t == topic && m == id && content@ == text,
            None => a matches MessageSubmitAction::Send { chat_id: c, thread_top_message_id: t, content }
                && c == chat_id && t == topic && content@ == text,
        },
    }
}

/// Whether the input holds something to submit: text other than whitespace, and a chat
/// to submit it to.
pub open spec fn submittable(s: AppState) -> bool {
    trim_spec(s.input_buffer@).len() > 0 && s.selected_chat_id_spec() is Some
}

impl AppState {
    /// What submitting the input does (see `submit_action_matches`); whitespace alone, or
    /// no selected chat, submits nothing. The state is left as it is: a send clears the
    /// input when it starts, and an edit or reply keeps the input until it is saved.
    pub fn prepare_message_submit(&self) -> (r: Option<MessageSubmitAction>)
        ensures
            !submittable(*self) ==> r is None,
            submittable(*self) ==> (r matches Some(a) && submit_action_matches(*self, a)),
    {
        let text = trim_chars(&self.input_buffer);
        if text.len() == 0 {
            return None;
        }
        let chat_id = match self.selected_chat_id() {
            Some(id) => id,
            None => return None,
        };
        let topic = self.selected_thread_topic_id();
        let content = string_of(text.as_slice());
        Some(match self.editing_message_id {
            Some(id) => MessageSubmitAction::Edit { chat_id, message_id: id, content },
            None => match self.replying_to_message_id {
                Some(id) => MessageSubmitAction::Reply { chat_id, thread_top_message_id: topic, message_id: id, content },
                None => MessageSubmitAction::Send { chat_id, thread_top_message_id: topic, content },
            },
        })
    }
}

/// How long the typing indicator shown to the other side lasts before it is sent again
/// for the same chat and topic, in milliseconds.
pub const TYPING_ACTION_COOLDOWN_MS: u64 = 5000;

/// Whether the typing indicator should be sent for this chat and topic at `now`: it was
/// not sent yet, was last sent for another chat or topic, or the cooldown has passed (or
/// the clock went back).
pub open spec fn typing_due_spec(s: AppState, chat_id: i64, topic_id: Option<i32>, now: u64) -> bool {
    match s.typing_action_sent {
        None => true,
        Some(sent) => sent.0 != chat_id || sent.1 != topic_id || now < sent.2 || now - sent.2 >= TYPING_ACTION_COOLDOWN_MS,
    }
}

/// Once the typing indicator was sent for a chat and topic, it is not due again for them
/// until the cooldown has passed; for another chat it is due at once.
pub proof fn lemma_typing_indicator_rate_limited(s: AppState, chat_id: i64, topic_id: Option<i32>, sent_at: u64, now: u64, other_chat: i64)
    requires
        s.typing_action_sent == Some((chat_id, topic_id, sent_at)),
    ensures
        sent_at <= now < sent_at + TYPING_ACTION_COOLDOWN_MS ==> !typing_due_spec(s, chat_id, topic_id, now),
        now >= sent_at + TYPING_ACTION_COOLDOWN_MS ==> typing_due_spec(s, chat_id, topic_id, now),
        other_chat != chat_id ==> typing_due_spec(s, other_chat, topic_id, now),
{
}

impl AppState {
    /// Whether the typing indicator is due for this chat and topic at `now` (see
    /// `typing_due_spec`); when it is, it is recorded as sent now.
    pub fn typing_action_due(&mut self, chat_id: i64, topic_id: Option<i32>, now: u64) -> (due: bool)
        ensures
            old(self).wf() ==> final(self).wf(),
            due == typing_due_spec(*old(self), chat_id, topic_id, now),
            due ==> *final(self) == (AppState { typing_action_sent: Some((chat_id, topic_id, now)), ..*old(self) }),
            !due ==> *final(self) == *old(self),
    {
        let due = match self.typing_action_sent {
            None => true,
            Some((c, t, at)) => {
                let same_topic = match (t, topic_id) {
                    (Some(a), Some(b)) => a == b,
                    (None, None) => true,
                    _ => false,
                };
                c != chat_id || !same_topic || now < at || now - at >= TYPING_ACTION_COOLDOWN_MS
            },
        };
        if due {
            self.typing_action_sent = Some((chat_id, topic_id, now));
        }
        due
    }

    /// Forgets when the typing indicator was sent, so the next typing sends it.
    pub fn reset_typing_action_cooldown(&mut self)
        ensures
            old(self).wf() ==> final(self).wf(),
            *final(self) == (AppState { typing_action_sent: None, ..*old(self) }),
    {
        self.typing_action_sent = None;
    }

    /// Records that the reply of request `request_id` is on its way.
    pub fn begin_reply_submission(&mut self, request_id: u64)
        ensures
            old(self).wf() ==> final(self).wf(),
            *final(self) == (AppState { reply_submission: Some(request_id), ..*old(self) }),
    {
        self.reply_submission = Some(request_id);
    }

    /// Whether a reply is on its way.
    pub fn reply_submission_pending(&self) -> (r: bool)
        ensures
            r == (self.reply_submission is Some),
    {
        self.reply_submission.is_some()
    }

    /// Whether the reply on its way is the one of request `request_id`.
    pub fn reply_submission_matches(&self, request_id: u64) -> (r: bool)
        ensures
            r == (self.reply_submission == Some(request_id)),
    {
        match self.reply_submission {
            Some(id) => id == request_id,
            None => false,
        }
    }

    /// The reply on its way has finished.
    pub fn finish_reply_submission(&mut self)
        ensures
            old(self).wf() ==> final(self).wf(),
            *final(self) == (AppState { reply_submission: None, ..*old(self) }),
    {
        self.reply_submission = None;
    }

    /// Whether the input holds text other than whitespace.
    pub fn input_has_submit_text(&self) -> (r: bool)
        ensures
            r == (trim_spec(self.input_buffer@).len() > 0),
    {
        trim_chars(&self.input_buffer).len() > 0
    }
}

/// The work a key in the input leaves for the event loop.
#[derive(Debug, Clone)]
pub enum InputWork {
    /// Nothing left to do.
    Nothing,
    /// Show the other side that the user is typing in this chat and topic.
    SendTyping { chat_id: i64, topic_id: Option<i32> },
    /// Load the newest messages of the action's chat and topic across the gap left while
    /// the newer history had this generation, then hold the action back until they are
    /// shown (see `AppState::queue_gap_submit`).
    RefreshBeforeSubmit { action: MessageSubmitAction, generation: u64 },
    /// Send this message, already shown as being sent.
    Send(PendingSend),
    /// Save this edit.
    Edit { chat_id: i64, message_id: i32, content: String },
    /// Send this reply.
    Reply { chat_id: i64, thread_top_message_id: Option<i32>, message_id: i32, content: String },
}

impl App {
    /// A send or reply is held back until the newest messages are loaded.
    pub open spec fn gap_submit_waiting(&self) -> bool {
        self.state.gap_submit is Some
    }
}

/// What a key in the input does (see `handle_input_focused`).
#[verifier::opaque]
pub open spec fn input_focused_done(old: App, new: App, key: KeyEvent, timestamp: i64, now: u64, r: InputWork) -> bool {
    &&& new.should_quit == old.should_quit
    &&& new.preferences_path == old.preferences_path
    &&& if old.gap_submit_waiting() {
        r is Nothing && status_reported(old.state, new.state, REFRESHING_LATEST_BEFORE_SEND_STATUS@)
    } else {
        input_handled(old, new, key, timestamp, now, r)
    }
}

/// What a key in the input does while no send or reply is held back.
pub open spec fn input_handled(old: App, new: App, key: KeyEvent, timestamp: i64, now: u64, r: InputWork) -> bool {
    &&& (input_outcome_for(input_edit_for(key)) != InputKeyOutcome::Submit ==> {
        let edited = AppState { typing_action_sent: old.state.typing_action_sent, ..new.state };
        &&& input_edit_applied(old.state, edited, input_edit_for(key))
        &&& if edited.input_buffer@ == old.state.input_buffer@ {
            r is Nothing && new.state == edited
        } else if trim_spec(edited.input_buffer@).len() == 0 {
            r is Nothing && new.state == (AppState { typing_action_sent: None, ..edited })
        } else {
            match edited.selected_chat_id_spec() {
                Some(chat_id) => {
                    let topic_id = edited.selected_topic_id_spec();
                    if typing_due_spec(edited, chat_id, topic_id, now) {
                        &&& r == (InputWork::SendTyping { chat_id, topic_id })
                        &&& new.state == (AppState { typing_action_sent: Some((chat_id, topic_id, now)), ..edited })
                    } else {
                        r is Nothing && new.state == edited
                    }
                },
                None => r is Nothing && new.state == edited,
            }
        }
    })
    &&& (input_outcome_for(input_edit_for(key)) == InputKeyOutcome::Submit && !submittable(old.state)
        ==> r is Nothing && new.state == old.state)
    &&& (input_outcome_for(input_edit_for(key)) == InputKeyOutcome::Submit && submittable(old.state)
        && old.state.newer_history_gap && old.state.editing_message_id is None ==> {
        &&& r matches InputWork::RefreshBeforeSubmit { action, generation }
        &&& submit_action_matches(old.state, action)
        &&& generation == old.state.newer_history_generation
        &&& status_reported(old.state, new.state, REFRESHING_LATEST_BEFORE_SEND_STATUS@)
    })
    &&& (input_outcome_for(input_edit_for(key)) == InputKeyOutcome::Submit && submittable(old.state)
        && !(old.state.newer_history_gap && old.state.editing_message_id is None) ==> {
        match r {
            InputWork::Edit { chat_id, message_id, content } => {
                &&& submit_action_matches(old.state, MessageSubmitAction::Edit { chat_id, message_id, content })
                &&& status_reported(old.state, new.state, SAVING_EDIT_STATUS@)
            },
            InputWork::Reply { chat_id, thread_top_message_id, message_id, content } => {
                &&& old.state.reply_submission is None
                &&& submit_action_matches(
                    old.state,
                    MessageSubmitAction::Reply { chat_id, thread_top_message_id, message_id, content },
                )
                &&& status_reported(old.state, new.state, SENDING_REPLY_STATUS@)
            },
            InputWork::Send(pending) => {
                &&& submit_action_matches(
                    old.state,
                    MessageSubmitAction::Send {
                        chat_id: pending.chat_id,
                        thread_top_message_id: pending.thread_top_message_id,
                        content: pending.content,
                    },
                )
                &&& pending.temp_id == old.state.next_temp_id
                &&& new.state.messages@.len() == old.state.messages@.len() + 1
                &&& new.state.messages@.drop_last() == old.state.messages@
                &&& new.state.messages@.last() == AppState::pending_message(
                    pending.temp_id,
                    pending.chat_id,
                    pending.thread_top_message_id,
                    pending.content,
                    new.state.messages@.last().sender_name,
                    timestamp,
                )
                &&& new.state.selected_message_index == old.state.messages@.len()
                &&& new.state.input_buffer@.len() == 0
                &&& new.state.input_cursor == 0
                &&& new.state.chats@ == old.state.chats@.map_values(
                    |c: Chat| AppState::with_last_message(c, pending.chat_id, pending.content),
                )
                &&& new.state.status_message is Some
                &&& new.state.status_message->0@ == SENDING_MESSAGE_STATUS@
                &&& new.state == (AppState {
                    messages: new.state.messages,
                    selected_message_index: new.state.selected_message_index,
                    chats: new.state.chats,
                    next_temp_id: new.state.next_temp_id,
                    input_buffer: new.state.input_buffer,
                    input_cursor: 0,
                    status_message: new.state.status_message,
                    error_message: None,
                    ..old.state
                })
            },
            InputWork::Nothing => old.state.reply_submission is Some && old.state.editing_message_id is None
                && old.state.replying_to_message_id is Some && new.state == old.state,
            _ => false,
        }
    })
}

/// What a key in the input does. Any key but Enter edits the input (see
/// `handle_input_key`); when that changed the input and it holds text to submit, the
/// typing indicator is asked for when due at `now` (see `typing_due_spec`), and an input
/// left without such text lets the next typing send it at once. Enter submits the input (see
/// `prepare_message_submit`): a send is shown at once as a message being sent at
/// `timestamp`, the input is cleared and `SENDING_MESSAGE_STATUS` reported; an edit is
/// reported as `SAVING_EDIT_STATUS` and a reply as `SENDING_REPLY_STATUS`, keeping the
/// input until they are saved; while another reply is on its way a reply is not sent. The work is returned. Nothing to submit leaves nothing to
/// do.
///
/// While a send or reply is held back, keys only report that the newest messages are
/// loading. With newer messages left out, a send or reply first asks for them (see
/// `InputWork::RefreshBeforeSubmit`).
pub fn handle_input_focused(app: &mut App, key: KeyEvent, timestamp: i64, now: u64) -> (r: InputWork)
    ensures
        old(app).state.wf() ==> final(app).state.wf(),
        input_focused_done(*old(app), *final(app), key, timestamp, now, r),
{
    proof {
        reveal(input_focused_done);
        reveal_strlit("Loading ");
        reveal_strlit("Refreshing latest before send…");
        assert(REFRESHING_LATEST_BEFORE_SEND_STATUS@.subrange(0, "Loading "@.len() as int)[0]
            == REFRESHING_LATEST_BEFORE_SEND_STATUS@[0]);
    }
    if app.state.gap_submit_pending() {
        app.state.set_status(REFRESHING_LATEST_BEFORE_SEND_STATUS);
        return InputWork::Nothing;
    }
    let before = app.state.input_buffer.clone();
    let outcome = handle_input_key(&mut app.state, key);
    if outcome != InputKeyOutcome::Submit {
        if chars_eq(&before, &app.state.input_buffer) {
            return InputWork::Nothing;
        }
        if !app.state.input_has_submit_text() {
            app.state.reset_typing_action_cooldown();
            return InputWork::Nothing;
        }
        let chat_id = match app.state.selected_chat_id() {
            Some(id) => id,
            None => return InputWork::Nothing,
        };
        let topic_id = app.state.selected_thread_topic_id();
        if app.state.typing_action_due(chat_id, topic_id, now) {
            return InputWork::SendTyping { chat_id, topic_id };
        }
        return InputWork::Nothing;
    }
    proof {
        reveal_strlit("Loading ");
        reveal_strlit("Saving edit…");
        reveal_strlit("Sending reply…");
        reveal_strlit("Sending message…");
        assert(SAVING_EDIT_STATUS@.subrange(0, "Loading "@.len() as int)[0] == SAVING_EDIT_STATUS@[0]);
        assert(SENDING_REPLY_STATUS@.subrange(0, "Loading "@.len() as int)[0] == SENDING_REPLY_STATUS@[0]);
        assert(SENDING_MESSAGE_STATUS@.subrange(0, "Loading "@.len() as int)[0] == SENDING_MESSAGE_STATUS@[0]);
    }
    let action = match app.state.prepare_message_submit() {
        Some(a) => a,
        None => return InputWork::Nothing,
    };
    if app.state.newer_history_gap() && app.state.editing_message_id.is_none() {
        let generation = app.state.newer_history_generation();
        show_progress(app, REFRESHING_LATEST_BEFORE_SEND_STATUS);
        return InputWork::RefreshBeforeSubmit { action, generation };
    }
    match action {
        MessageSubmitAction::Send { chat_id, thread_top_message_id, content } => {
            let pending = begin_send_message(&mut app.state, chat_id, thread_top_message_id, content, timestamp);
            app.state.clear_input();
            show_progress(app, SENDING_MESSAGE_STATUS);
            InputWork::Send(pending)
        },
        MessageSubmitAction::Edit { chat_id, message_id, content } => {
            show_progress(app, SAVING_EDIT_STATUS);
            InputWork::Edit { chat_id, message_id, content }
        },
        MessageSubmitAction::Reply { chat_id, thread_top_message_id, message_id, content } => {
            if app.state.reply_submission_pending() {
                return InputWork::Nothing;
            }
            show_progress(app, SENDING_REPLY_STATUS);
            InputWork::Reply { chat_id, thread_top_message_id, message_id, content }
        },
    }
}

pub const REPLY_TARGET_GONE_ERROR: &'static str = "Reply target is no longer in the latest message window";

/// What is released once the newest messages are shown: nothing while newer messages are
/// still left out or nothing is ready; else the held-back action, which is taken. A send
/// starts (shown as being sent at `timestamp`, the input cleared, `SENDING_MESSAGE_STATUS`
/// reported). A reply goes when its target is still loaded and no other reply is on its
/// way (reported as `SENDING_REPLY_STATUS`); a target no longer loaded is reported as an
/// error. An edit is never held back and is dropped.
pub open spec fn gap_submit_released(old: App, new: App, timestamp: i64, r: InputWork) -> bool {
    &&& new.should_quit == old.should_quit
    &&& new.preferences_path == old.preferences_path
    &&& if old.state.newer_history_gap || !(old.state.gap_submit matches Some(g) && g.ready) {
        r is Nothing && new.state == old.state
    } else {
        let taken = AppState { gap_submit: None, ..old.state };
        match old.state.gap_submit->0.action {
            MessageSubmitAction::Send { chat_id, thread_top_message_id, content } => {
                &&& r matches InputWork::Send(pending) && pending.chat_id == chat_id
                    && pending.thread_top_message_id == thread_top_message_id && pending.content == content
                    && pending.temp_id == old.state.next_temp_id
                &&& new.state.messages@.len() == old.state.messages@.len() + 1
                &&& new.state.messages@.drop_last() == old.state.messages@
                &&& new.state.messages@.last() == AppState::pending_message(
                    old.state.next_temp_id,
                    chat_id,
                    thread_top_message_id,
                    content,
                    new.state.messages@.last().sender_name,
                    timestamp,
                )
                &&& new.state.chats@ == old.state.chats@.map_values(|c: Chat| AppState::with_last_message(c, chat_id, content))
                &&& new.state.input_buffer@.len() == 0
                &&& new.state.status_message is Some
                &&& new.state.status_message->0@ == SENDING_MESSAGE_STATUS@
                &&& new.state == (AppState {
                    messages: new.state.messages,
                    selected_message_index: old.state.messages@.len() as usize,
                    chats: new.state.chats,
                    next_temp_id: new.state.next_temp_id,
                    input_buffer: new.state.input_buffer,
                    input_cursor: 0,
                    status_message: new.state.status_message,
                    error_message: None,
                    ..taken
                })
            },
            MessageSubmitAction::Reply { chat_id, thread_top_message_id, message_id, content } => {
                if !(exists|j: int| 0 <= j < taken.messages@.len() && #[trigger] taken.messages@[j].chat_id == chat_id
                    && taken.messages@[j].id == message_id) {
                    &&& r is Nothing
                    &&& new.state.error_message is Some
                    &&& new.state.error_message->0@ == REPLY_TARGET_GONE_ERROR@
                    &&& new.state == (AppState { status_message: None, error_message: new.state.error_message, ..taken })
                } else if taken.reply_submission is Some {
                    r is Nothing && new.state == taken
                } else {
                    &&& r == (InputWork::Reply { chat_id, thread_top_message_id, message_id, content })
                    &&& status_reported(taken, new.state, SENDING_REPLY_STATUS@)
                }
            },
            MessageSubmitAction::Edit { .. } => r is Nothing && new.state == taken,
        }
    }
}

/// Releases the held-back send or reply once the newest messages are shown (see
/// `gap_submit_released`).
pub fn release_gap_submit_if_ready(app: &mut App, timestamp: i64) -> (r: InputWork)
    ensures
        old(app).state.wf() ==> final(app).state.wf(),
        gap_submit_released(*old(app), *final(app), timestamp, r),
{
    if app.state.newer_history_gap() {
        return InputWork::Nothing;
    }
    let action = match app.state.take_ready_gap_submit() {
        Some(a) => a,
        None => return InputWork::Nothing,
    };
    proof {
        reveal_strlit("Loading ");
        reveal_strlit("Sending reply…");
        assert(SENDING_REPLY_STATUS@.subrange(0, "Loading "@.len() as int)[0] == SENDING_REPLY_STATUS@[0]);
    }
    match action {
        MessageSubmitAction::Send { chat_id, thread_top_message_id, content } => {
            let pending = begin_send_message(&mut app.state, chat_id, thread_top_message_id, content, timestamp);
            app.state.clear_input();
            app.state.set_status(SENDING_MESSAGE_STATUS);
            InputWork::Send(pending)
        },
        MessageSubmitAction::Reply { chat_id, thread_top_message_id, message_id, content } => {
            if !app.state.has_message_identity(chat_id, message_id) {
                app.state.set_error(String::from_str(REPLY_TARGET_GONE_ERROR));
                return InputWork::Nothing;
            }
            if app.state.reply_submission_pending() {
                return InputWork::Nothing;
            }
            show_progress(app, SENDING_REPLY_STATUS);
            InputWork::Reply { chat_id, thread_top_message_id, message_id, content }
        },
        MessageSubmitAction::Edit { .. } => InputWork::Nothing,
    }
}

/// A reply's outcome as the event loop receives it, with the request and the reply
/// target it answers.
#[derive(Debug)]
pub struct ReplyMessageResult {
    pub request_id: u64,
    pub chat_id: i64,
    pub thread_top_message_id: Option<i32>,
    pub message_id: i32,
    pub result: Result<Message, String>,
}

/// A reply's outcome belongs to what is shown when it answers the reply on its way, in
/// the selected chat and topic, to the message still being replied to and still loaded.
pub open spec fn reply_result_current(s: AppState, load: ReplyMessageResult) -> bool {
    &&& s.selected_chat_id_spec() == Some(load.chat_id)
    &&& s.reply_submission == Some(load.request_id)
    &&& s.selected_topic_id_spec() == load.thread_top_message_id
    &&& s.replying_to_message_id == Some(load.message_id)
    &&& exists|j: int| 0 <= j < s.messages@.len() && #[trigger] s.messages@[j].chat_id == load.chat_id
        && s.messages@[j].id == load.message_id
}

/// Shows a reply's outcome when it belongs to what is shown (see `reply_result_current`
/// and `reply_result_shown`); either way the reply it answers is no longer on its way. A
/// stale outcome changes nothing else.
pub fn apply_reply_message_result(app: &mut App, load: ReplyMessageResult)
    ensures
        old(app).state.wf() ==> final(app).state.wf(),
        final(app).should_quit == old(app).should_quit,
        final(app).preferences_path == old(app).preferences_path,
        reply_result_current(old(app).state, load) ==> exists|shown: AppState| {
            &&& #[trigger] reply_result_shown(old(app).state, shown, load.result)
            &&& final(app).state == (AppState { reply_submission: None, ..shown })
        },
        !reply_result_current(old(app).state, load) && old(app).state.reply_submission == Some(load.request_id)
            ==> final(app).state == (AppState { reply_submission: None, ..old(app).state }),
        !reply_result_current(old(app).state, load) && old(app).state.reply_submission != Some(load.request_id)
            ==> final(app).state == old(app).state,
{
    let current = app.state.selected_chat_id() == Some(load.chat_id) && app.state.reply_submission_matches(load.request_id)
        && opt_i32_eq(app.state.selected_thread_topic_id(), load.thread_top_message_id)
        && opt_i32_eq(app.state.replying_to_message_id, Some(load.message_id))
        && app.state.has_message_identity(load.chat_id, load.message_id);
    if current {
        apply_reply_to_state(&mut app.state, load.result);
        let ghost shown = app.state;
        app.state.finish_reply_submission();
        assert(reply_result_shown(old(app).state, shown, load.result));
    } else if app.state.reply_submission_matches(load.request_id) {
        app.state.finish_reply_submission();
    }
}

} // verus!
