//! Showing the messages loaded for the open conversation: which loads still answer the
//! selection, what they change, and what to mark read.

use crate::app::App;
use crate::session::{highest_message_id, max_message_id, ConversationLoadApply, LoadedReadAck};
use crate::mouse_state::message_position;
use crate::state::{opt_i32_eq, AppState, ConversationLoadStatus, GapSubmit};
use crate::types::{Message, ThreadTopic};
use vstd::prelude::*;

verus! {

/// The messages of a conversation, with the chat's topics when they were loaded too.
#[derive(Debug)]
pub struct ChatMessageLoad {
    pub messages: Vec<Message>,
    pub thread_topics: Option<Vec<ThreadTopic>>,
}

/// Why a conversation was loaded: to open it, or to fetch its newest messages across the
/// gap left while the newer history had this generation.
#[derive(Debug, Clone, Copy, PartialEq, Eq, Structural)]
pub enum ChatMessageLoadPurpose {
    OpenConversation,
    RefreshNewerGap { generation: u64 },
}

/// A conversation load as the event loop receives it: the request it answers, the chat
/// and topic it was made for, why, and what came back.
#[derive(Debug)]
pub struct ChatMessageLoadResult {
    pub request_id: u64,
    pub chat_id: i64,
    pub topic_id: Option<i32>,
    pub purpose: ChatMessageLoadPurpose,
    pub result: Result<ChatMessageLoad, String>,
}

pub const NEWER_MESSAGES_DURING_REFRESH_ERROR: &'static str = "Newer messages arrived during refresh; try again";

/// A load answers the selection when it answers the latest request, for the selected
/// chat, and for the selected topic. A load opening a topic also answers a chat whose
/// topics are not known yet: it opens that chat's first topic.
pub open spec fn chat_load_current(s: AppState, latest_request_id: u64, load: ChatMessageLoadResult) -> bool {
    let selected_topic = s.selected_topic_id_spec();
    let opening_first_topic = load.purpose is OpenConversation && selected_topic is None
        && s.thread_topics@.len() == 0 && load.topic_id is Some;
    &&& load.request_id == latest_request_id
    &&& s.selected_chat_id_spec() == Some(load.chat_id)
    &&& (selected_topic == load.topic_id || opening_first_topic)
}

/// What to mark read after showing `messages` of `chat_id`: the topic's thread up to the
/// highest loaded id for a topic load, else the chat up to it; nothing without messages.
pub open spec fn chat_load_read_ack(chat_id: i64, topic_id: Option<i32>, messages: Seq<Message>) -> Option<LoadedReadAck> {
    if messages.len() == 0 {
        None
    } else {
        match topic_id {
            Some(t) => Some(LoadedReadAck::Thread { chat_id, topic_id: t, max_message_id: max_message_id(messages, messages.len() as int) }),
            None => Some(LoadedReadAck::Chat { chat_id, max_message_id: max_message_id(messages, messages.len() as int) }),
        }
    }
}

/// The state after a current load opened the conversation: its topics (when loaded) with
/// the first selected, its messages with the newest selected, and the status cleared; or,
/// after a failure, the load marked failed and its error shown.
pub open spec fn chat_load_shown(old: AppState, new: AppState, result: Result<ChatMessageLoad, String>) -> bool {
    match result {
        Ok(load) => {
            &&& new.messages@ == load.messages@
            &&& match load.thread_topics {
                Some(topics) => new.thread_topics@ == topics@ && new.selected_thread_topic_index == 0,
                None => new.thread_topics == old.thread_topics && new.selected_thread_topic_index == old.selected_thread_topic_index,
            }
            &&& new == (AppState {
                messages: new.messages,
                thread_topics: new.thread_topics,
                selected_thread_topic_index: new.selected_thread_topic_index,
                selected_message_index: AppState::last_index(load.messages@.len()),
                message_scroll_offset: 0,
                conversation_load_status: ConversationLoadStatus::Loaded,
                status_message: None,
                ..old
            })
        },
        Err(e) => new == (AppState {
            conversation_load_status: ConversationLoadStatus::Failed,
            status_message: None,
            error_message: Some(e),
            ..old
        }),
    }
}

/// The message selected after a refresh shows `messages`: the first one of `chat_id` with
/// the highest id, else the newest.
pub open spec fn refreshed_selection(messages: Seq<Message>, chat_id: i64) -> usize {
    if messages.len() == 0 {
        0
    } else {
        match message_position(messages, chat_id, max_message_id(messages, messages.len() as int), 0) {
            Some(i) => i as usize,
            None => (messages.len() - 1) as usize,
        }
    }
}

/// The state after a current refresh across the gap loaded `load`: its messages replace
/// the window and the gap closes, its topics (when loaded) are shown with the first
/// selected, the message with the highest id is selected, and the status is cleared.
pub open spec fn gap_refresh_shown(old: AppState, new: AppState, chat_id: i64, load: ChatMessageLoad) -> bool {
    &&& new.messages@ == load.messages@
    &&& match load.thread_topics {
        Some(topics) => new.thread_topics@ == topics@ && new.selected_thread_topic_index == 0,
        None => new.thread_topics == old.thread_topics && new.selected_thread_topic_index == old.selected_thread_topic_index,
    }
    &&& new == (AppState {
        messages: new.messages,
        thread_topics: new.thread_topics,
        selected_thread_topic_index: new.selected_thread_topic_index,
        selected_message_index: refreshed_selection(load.messages@, chat_id),
        message_scroll_offset: 0,
        conversation_load_status: ConversationLoadStatus::Loaded,
        newer_history_gap: false,
        status_message: None,
        ..old
    })
}

/// The held-back send or reply of request `request_id` dropped.
pub open spec fn without_gap_submit_of(s: AppState, request_id: u64) -> AppState {
    if s.gap_submit matches Some(g) && g.request_id == request_id {
        AppState { gap_submit: None, ..s }
    } else {
        s
    }
}

/// The held-back send or reply of this refresh marked ready to go.
pub open spec fn with_gap_submit_ready(s: AppState, request_id: u64, chat_id: i64, topic_id: Option<i32>) -> AppState {
    if s.gap_submit matches Some(g) && g.request_id == request_id && g.chat_id == chat_id && g.topic_id == topic_id {
        AppState { gap_submit: Some(GapSubmit { ready: true, ..s.gap_submit->0 }), ..s }
    } else {
        s
    }
}

/// What applying a conversation load does (see `apply_chat_message_load_result_with_outcome`).
pub open spec fn chat_load_applied(old: AppState, new: AppState, latest_request_id: u64, load: ChatMessageLoadResult, r: (ConversationLoadApply, Option<LoadedReadAck>)) -> bool {
    if !chat_load_current(old, latest_request_id, load) {
        &&& r == (ConversationLoadApply { dirty: false, snapshot_applied: false }, None::<LoadedReadAck>)
        &&& new == without_gap_submit_of(old, load.request_id)
    } else {
        match load.purpose {
            ChatMessageLoadPurpose::RefreshNewerGap { generation } => if generation != old.newer_history_generation {
                &&& r == (ConversationLoadApply { dirty: true, snapshot_applied: false }, None::<LoadedReadAck>)
                &&& new.error_message is Some
                &&& new.error_message->0@ == NEWER_MESSAGES_DURING_REFRESH_ERROR@
                &&& new == (AppState {
                    status_message: None,
                    error_message: new.error_message,
                    ..without_gap_submit_of(old, load.request_id)
                })
            } else {
                match load.result {
                    Ok(l) => {
                        &&& r == (
                            ConversationLoadApply { dirty: true, snapshot_applied: true },
                            chat_load_read_ack(load.chat_id, load.topic_id, l.messages@),
                        )
                        &&& gap_refresh_shown(
                            with_gap_submit_ready(old, load.request_id, load.chat_id, load.topic_id),
                            new,
                            load.chat_id,
                            l,
                        )
                    },
                    Err(e) => {
                        &&& r == (ConversationLoadApply { dirty: true, snapshot_applied: false }, None::<LoadedReadAck>)
                        &&& new == (AppState { status_message: None, error_message: Some(e), ..without_gap_submit_of(old, load.request_id) })
                    },
                }
            },
            ChatMessageLoadPurpose::OpenConversation => {
                &&& r.0 == (ConversationLoadApply { dirty: true, snapshot_applied: load.result is Ok })
                &&& r.1 == match load.result {
                    Ok(l) => chat_load_read_ack(load.chat_id, load.topic_id, l.messages@),
                    Err(_) => None,
                }
                &&& chat_load_shown(
                    match load.result {
                        Ok(_) => with_gap_submit_ready(old, load.request_id, load.chat_id, load.topic_id),
                        Err(_) => old,
                    },
                    new,
                    load.result,
                )
            },
        }
    }
}

/// Shows a conversation load that answers the selection (see `chat_load_current`) and
/// returns the outcome with what to mark read (see `chat_load_read_ack`). Opening shows
/// the conversation (see `chat_load_shown`); a refresh across the gap replaces the window
/// with the newest messages (see `gap_refresh_shown`), unless newer messages arrived since
/// it was asked for, which is reported instead. A load that no longer answers the
/// selection changes nothing. Whatever happens, a send or reply held back for this request
/// goes on only after a successful load and is dropped otherwise.
pub fn apply_chat_message_load_result_with_outcome(app: &mut App, latest_request_id: u64, load: ChatMessageLoadResult) -> (r: (ConversationLoadApply, Option<LoadedReadAck>))
    ensures
        old(app).state.wf() ==> final(app).state.wf(),
        *final(app) == (App { state: final(app).state, ..*old(app) }),
        chat_load_applied(old(app).state, final(app).state, latest_request_id, load, r),
{
    let ignored = (ConversationLoadApply { dirty: false, snapshot_applied: false }, None);
    let request_id = load.request_id;
    let refresh = match load.purpose {
        ChatMessageLoadPurpose::RefreshNewerGap { .. } => true,
        ChatMessageLoadPurpose::OpenConversation => false,
    };
    if load.request_id != latest_request_id {
        app.state.cancel_gap_submit_for_request(request_id);
        return ignored;
    }
    if app.state.selected_chat_id() != Some(load.chat_id) {
        app.state.cancel_gap_submit_for_request(request_id);
        return ignored;
    }
    let selected_topic = app.state.selected_thread_topic_id();
    let opening_first_topic = !refresh && selected_topic.is_none() && app.state.thread_topics.len() == 0
        && load.topic_id.is_some();
    if !opt_i32_eq(selected_topic, load.topic_id) && !opening_first_topic {
        app.state.cancel_gap_submit_for_request(request_id);
        return ignored;
    }
    if let ChatMessageLoadPurpose::RefreshNewerGap { generation } = load.purpose {
        if generation != app.state.newer_history_generation() {
            app.state.cancel_gap_submit_for_request(request_id);
            app.state.set_error(String::from_str(NEWER_MESSAGES_DURING_REFRESH_ERROR));
            return (ConversationLoadApply { dirty: true, snapshot_applied: false }, None);
        }
    }
    let chat_id = load.chat_id;
    let topic_id = load.topic_id;
    match load.result {
        Ok(loaded) => {
            let ack = if loaded.messages.len() == 0 {
                None
            } else {
                let max_message_id = highest_message_id(&loaded.messages);
                match topic_id {
                    Some(t) => Some(LoadedReadAck::Thread { chat_id, topic_id: t, max_message_id }),
                    None => Some(LoadedReadAck::Chat { chat_id, max_message_id }),
                }
            };
            app.state.mark_gap_submit_ready(request_id, chat_id, topic_id);
            if refresh {
                let latest = if loaded.messages.len() > 0 { Some(highest_message_id(&loaded.messages)) } else { None };
                app.state.apply_refreshed_selected_chat_messages(loaded.messages);
                if let Some(topics) = loaded.thread_topics {
                    app.state.apply_loaded_selected_chat_thread_topics(topics);
                }
                if let Some(message_id) = latest {
                    app.state.select_message_by_identity(chat_id, message_id);
                }
            } else {
                if let Some(topics) = loaded.thread_topics {
                    app.state.apply_loaded_selected_chat_thread_topics(topics);
                }
                app.state.apply_loaded_selected_chat_messages(loaded.messages);
            }
            app.state.clear_status();
            (ConversationLoadApply { dirty: true, snapshot_applied: true }, ack)
        },
        Err(error) => {
            if refresh {
                app.state.cancel_gap_submit_for_request(request_id);
                app.state.set_error(error);
            } else {
                app.state.mark_conversation_load_failed();
                app.state.set_error(error);
            }
            (ConversationLoadApply { dirty: true, snapshot_applied: false }, None)
        },
    }
}

} // verus!
