//! What the event loop decides when a request's result comes back and on some commands.
//!
//! Each function here updates the application and returns what the loop has to do next
//! (mark messages read, open a link, start a download); the loop does that work itself.

use crate::actions;
use crate::actions::{
    older_request_done, delete_result_shown, edit_result_shown, folder_load_shown, initial_load_shown,
    older_messages_shown, send_result_shown, FolderChatLoad, InitialStateLoad,
};
use crate::app::App;
use crate::app_keys::{app_key_effect, handle_app_key, AppKeyOutcome};
use crate::chat_keys::{chat_key_effect, handle_chat_key, ChatKeyOutcome};
use crate::confirm_keys::{confirm_key_spec, handle_confirm_key, ConfirmKeyOutcome};
use crate::folder_keys::{handle_folder_key, FolderKeyOutcome};
use crate::keys::{KeyCode, KeyEvent};
use crate::message_keys::{handle_message_key, message_key_effect, MessageKeyOutcome};
use crate::preferences::{preferences_changed, AppPreferences};
use crate::links::{first_url, links_spec};
use crate::state::{AppState, DeleteConfirmation, FocusedPanel, MessageSubmitAction};
use crate::cli::is_loading_progress_status;
use crate::text::{chars_of, concat, trim_chars, trim_spec};
use crate::types::{Chat, Message, MessageMediaKind, ThreadTopic, Update};
use std::collections::HashMap;
use vstd::prelude::*;

verus! {

broadcast use vstd::std_specs::hash::group_hash_axioms;

pub const LOADING_TELEGRAM_STATUS: &'static str = "Loading Telegram data…";
pub const LOADING_OLDER_MESSAGES_STATUS: &'static str = "Loading older messages…";
pub const LOADING_CHAT_MESSAGES_STATUS: &'static str = "Loading chat messages…";
pub const LOADING_FOLDER_CHATS_STATUS: &'static str = "Loading folder chats…";
pub const REFRESHING_LATEST_BEFORE_SEND_STATUS: &'static str = "Refreshing latest before send…";
pub const TELEGRAM_STATE_REFRESHED_STATUS: &'static str = "Telegram state refreshed";
pub const TELEGRAM_UPDATES_DISCONNECTED_ERROR: &'static str = "Telegram updates disconnected; retrying subscription";
pub const LINK_OPENED_STATUS: &'static str = "Link opened";
pub const MESSAGE_TEXT_COPIED_STATUS: &'static str = "Message text copied";
pub const CHAT_NAME_COPIED_STATUS: &'static str = "Chat name copied";
pub const DOWNLOADING_MEDIA_STATUS: &'static str = "Downloading media…";
pub const MEDIA_DOWNLOADED_STATUS: &'static str = "Media downloaded to Downloads";
pub const DOWNLOADED_MEDIA_OPENED_STATUS: &'static str = "Downloaded media opened";
pub const NO_DOWNLOADED_MEDIA_STATUS: &'static str = "No downloaded media for selected message";
pub const NO_TEXT_IN_SELECTED_MESSAGE_STATUS: &'static str = "No text in selected message";
pub const NO_LINK_IN_SELECTED_MESSAGE_STATUS: &'static str = "No link in selected message";
pub const NO_MEDIA_IN_SELECTED_MESSAGE_STATUS: &'static str = "No downloadable media in selected message";
pub const OPEN_LINK_FAILED_PREFIX: &'static str = "Open link failed";
pub const OPEN_DOWNLOADED_MEDIA_FAILED_PREFIX: &'static str = "Open downloaded media failed";
pub const DELETING_MESSAGE_STATUS: &'static str = "Deleting message…";
pub const SENDING_MESSAGE_STATUS: &'static str = "Sending message…";
pub const SAVING_EDIT_STATUS: &'static str = "Saving edit…";
pub const SENDING_REPLY_STATUS: &'static str = "Sending reply…";

pub open spec fn submit_status_spec(action: MessageSubmitAction) -> Seq<char> {
    match action {
        MessageSubmitAction::Edit { .. } => SAVING_EDIT_STATUS@,
        MessageSubmitAction::Reply { .. } => SENDING_REPLY_STATUS@,
        MessageSubmitAction::Send { .. } => SENDING_MESSAGE_STATUS@,
    }
}

/// The progress status shown while a submitted message is on its way.
pub fn message_submit_action_status(action: &MessageSubmitAction) -> (r: &'static str)
    ensures
        r@ == submit_status_spec(*action),
{
    match action {
        MessageSubmitAction::Edit { .. } => SAVING_EDIT_STATUS,
        MessageSubmitAction::Reply { .. } => SENDING_REPLY_STATUS,
        MessageSubmitAction::Send { .. } => SENDING_MESSAGE_STATUS,
    }
}

// ----- folder navigation -----

/// The folder before `selected` in a list of `len`, wrapping to the last.
pub open spec fn previous_folder_spec(selected: int, len: int) -> Option<int> {
    if len <= 0 {
        None
    } else if selected == 0 {
        Some(len - 1)
    } else {
        Some(selected - 1)
    }
}

/// The folder after `selected` in a list of `len`, wrapping to the first.
pub open spec fn next_folder_spec(selected: int, len: int) -> Option<int> {
    if len <= 0 {
        None
    } else {
        Some((selected + 1) % len)
    }
}

pub fn previous_folder_index(state: &AppState) -> (r: Option<usize>)
    ensures
        match r {
            Some(i) => previous_folder_spec(state.selected_folder_index as int, state.folders@.len() as int) == Some(i as int),
            None => previous_folder_spec(state.selected_folder_index as int, state.folders@.len() as int) is None,
        },
{
    if state.folders.len() == 0 {
        None
    } else if state.selected_folder_index == 0 {
        Some(state.folders.len() - 1)
    } else {
        Some(state.selected_folder_index - 1)
    }
}

pub fn next_folder_index(state: &AppState) -> (r: Option<usize>)
    requires
        state.wf(),
    ensures
        match r {
            Some(i) => next_folder_spec(state.selected_folder_index as int, state.folders@.len() as int) == Some(i as int),
            None => next_folder_spec(state.selected_folder_index as int, state.folders@.len() as int) is None,
        },
{
    if state.folders.len() == 0 {
        None
    } else {
        Some((state.selected_folder_index + 1) % state.folders.len())
    }
}

/// Folder navigation wraps around: from any folder of a non-empty list, the next folder
/// and the previous one are in the list, and stepping forward then back (or back then
/// forward) returns to it.
pub proof fn lemma_folder_navigation_round_trip(selected: int, len: int)
    requires
        0 <= selected < len,
    ensures
        previous_folder_spec(selected, len) matches Some(p) && 0 <= p < len,
        next_folder_spec(selected, len) matches Some(n) && 0 <= n < len,
        next_folder_spec(previous_folder_spec(selected, len)->0, len) == Some(selected),
        previous_folder_spec(next_folder_spec(selected, len)->0, len) == Some(selected),
{
    if selected + 1 < len {
        vstd::arithmetic::div_mod::lemma_small_mod((selected + 1) as nat, len as nat);
    } else {
        vstd::arithmetic::div_mod::lemma_mod_self_0(len);
    }
    if selected == 0 {
        vstd::arithmetic::div_mod::lemma_mod_self_0(len);
    } else {
        vstd::arithmetic::div_mod::lemma_small_mod(selected as nat, len as nat);
    }
}

// ----- older history navigation -----

/// How far to move after older messages were put in front.
#[derive(Debug, Clone, Copy, PartialEq, Eq, Structural)]
pub enum OlderMessageNavigation {
    OneLine,
    Page,
}

pub open spec fn older_navigation_spec(state: AppState, key: KeyEvent) -> Option<OlderMessageNavigation> {
    if state.focused_panel == FocusedPanel::Messages && state.messages@.len() > 0 && state.selected_message_index == 0 {
        match key.code {
            KeyCode::Up => Some(OlderMessageNavigation::OneLine),
            KeyCode::PageUp => Some(OlderMessageNavigation::Page),
            _ => None,
        }
    } else {
        None
    }
}

/// Up or Page Up on the first loaded message of the focused conversation asks for older
/// history, remembering how far to move once it arrives.
pub fn older_message_key_navigation(state: &AppState, key: &KeyEvent) -> (r: Option<OlderMessageNavigation>)
    ensures
        r == older_navigation_spec(*state, *key),
{
    if state.focused_panel != FocusedPanel::Messages || state.messages.len() == 0
        || state.selected_message_index != 0 {
        return None;
    }
    match key.code {
        KeyCode::Up => Some(OlderMessageNavigation::OneLine),
        KeyCode::PageUp => Some(OlderMessageNavigation::Page),
        _ => None,
    }
}

/// Moves the selection one message or one page up.
pub fn apply_older_message_navigation(state: &mut AppState, navigation: OlderMessageNavigation)
    ensures
        old(state).wf() ==> final(state).wf(),
        *final(state) == (AppState {
            selected_message_index: match navigation {
                OlderMessageNavigation::OneLine => AppState::prev_index(old(state).selected_message_index),
                OlderMessageNavigation::Page => AppState::page_up_index(
                    old(state).selected_message_index,
                    old(state).message_page_size,
                ),
            },
            ..*old(state)
        }),
{
    match navigation {
        OlderMessageNavigation::OneLine => state.select_prev_message(),
        OlderMessageNavigation::Page => state.page_messages_up(),
    }
}

// ----- read acknowledgements -----

/// Messages to mark read after a conversation was shown.
#[derive(Debug, Clone, Copy, PartialEq, Eq, Structural)]
pub enum LoadedReadAck {
    Chat { chat_id: i64, max_message_id: i32 },
    Thread { chat_id: i64, topic_id: i32, max_message_id: i32 },
}

/// The largest id among `ms[..n]` (for `n >= 1`).
pub open spec fn max_message_id(ms: Seq<Message>, n: int) -> i32
    decreases n,
{
    if n <= 1 {
        ms[0].id
    } else {
        let rest = max_message_id(ms, n - 1);
        if ms[n - 1].id > rest {
            ms[n - 1].id
        } else {
            rest
        }
    }
}

/// The highest id of a non-empty list of messages is at least each of their ids and is
/// the id of one of them.
pub proof fn lemma_max_message_id(ms: Seq<Message>, n: int)
    requires
        1 <= n <= ms.len(),
    ensures
        forall|i: int| 0 <= i < n ==> ms[i].id <= max_message_id(ms, n),
        exists|i: int| 0 <= i < n && ms[i].id == max_message_id(ms, n),
    decreases n,
{
    if n > 1 {
        lemma_max_message_id(ms, n - 1);
        let rest = max_message_id(ms, n - 1);
        if ms[n - 1].id <= rest {
            let w = choose|i: int| 0 <= i < n - 1 && ms[i].id == rest;
            assert(0 <= w < n && ms[w].id == max_message_id(ms, n));
        } else {
            assert(ms[n - 1].id == max_message_id(ms, n));
        }
    } else {
        assert(ms[0].id == max_message_id(ms, n));
    }
}

/// The highest id of a non-empty list of messages.
pub fn highest_message_id(ms: &Vec<Message>) -> (r: i32)
    requires
        ms@.len() > 0,
    ensures
        r == max_message_id(ms@, ms@.len() as int),
{
    let mut best = ms[0].id;
    let mut i: usize = 1;
    while i < ms.len()
        invariant
            1 <= i <= ms@.len(),
            best == max_message_id(ms@, i as int),
        decreases ms.len() - i,
    {
        if ms[i].id > best {
            best = ms[i].id;
        }
        i += 1;
    }
    best
}

/// What to mark read for a freshly loaded conversation: nothing unless messages loaded
/// for the first chat; the first topic's thread when topics loaded, else the chat, up to
/// the highest loaded message id.
pub open spec fn loaded_read_ack_spec(chats: Seq<Chat>, messages: Result<Vec<Message>, String>, topics: Seq<ThreadTopic>) -> Option<LoadedReadAck> {
    match messages {
        Err(_) => None,
        Ok(ms) => if ms@.len() == 0 || chats.len() == 0 {
            None
        } else if topics.len() > 0 {
            Some(LoadedReadAck::Thread {
                chat_id: chats[0].id,
                topic_id: topics[0].id,
                max_message_id: max_message_id(ms@, ms@.len() as int),
            })
        } else {
            Some(LoadedReadAck::Chat { chat_id: chats[0].id, max_message_id: max_message_id(ms@, ms@.len() as int) })
        },
    }
}

pub fn loaded_read_ack(chats: &Vec<Chat>, messages: &Result<Vec<Message>, String>, thread_topics: &Vec<ThreadTopic>) -> (r: Option<LoadedReadAck>)
    ensures
        r == loaded_read_ack_spec(chats@, *messages, thread_topics@),
{
    let ms = match messages {
        Ok(ms) => ms,
        Err(_) => return None,
    };
    if ms.len() == 0 || chats.len() == 0 {
        return None;
    }
    let max_message_id = highest_message_id(ms);
    if thread_topics.len() > 0 {
        Some(LoadedReadAck::Thread { chat_id: chats[0].id, topic_id: thread_topics[0].id, max_message_id })
    } else {
        Some(LoadedReadAck::Chat { chat_id: chats[0].id, max_message_id })
    }
}

/// The start-up load as the loop receives it.
#[derive(Debug)]
pub struct InitialStateLoadResult {
    pub result: Result<InitialStateLoad, String>,
}

pub open spec fn initial_load_read_ack_spec(load: InitialStateLoadResult) -> Option<LoadedReadAck> {
    match load.result {
        Ok(l) => loaded_read_ack_spec(l.chats@, l.messages, l.thread_topics@),
        Err(_) => None,
    }
}

pub fn initial_load_read_ack(load: &InitialStateLoadResult) -> (r: Option<LoadedReadAck>)
    ensures
        r == initial_load_read_ack_spec(*load),
{
    match &load.result {
        Ok(l) => loaded_read_ack(&l.chats, &l.messages, &l.thread_topics),
        Err(_) => None,
    }
}

/// A folder's chats as the loop receives them, with the request they answer.
#[derive(Debug)]
pub struct FolderChatLoadResult {
    pub request_id: u64,
    pub folder_index: usize,
    pub folder_id: Option<i32>,
    pub result: Result<FolderChatLoad, String>,
}

pub open spec fn folder_chat_load_read_ack_spec(load: FolderChatLoadResult) -> Option<LoadedReadAck> {
    match load.result {
        Ok(l) => loaded_read_ack_spec(l.chats@, l.messages, l.thread_topics@),
        Err(_) => None,
    }
}

pub fn folder_chat_load_read_ack(load: &FolderChatLoadResult) -> (r: Option<LoadedReadAck>)
    ensures
        r == folder_chat_load_read_ack_spec(*load),
{
    match &load.result {
        Ok(l) => loaded_read_ack(&l.chats, &l.messages, &l.thread_topics),
        Err(_) => None,
    }
}

/// A read acknowledgement is kept only when it is for what `state` shows: its chat
/// selected and, for a thread, its topic selected.
pub open spec fn ack_for_selection(ack: Option<LoadedReadAck>, state: AppState) -> Option<LoadedReadAck> {
    match ack {
        Some(LoadedReadAck::Chat { chat_id, max_message_id }) => if state.selected_chat_id_spec() == Some(chat_id) {
            ack
        } else {
            None
        },
        Some(LoadedReadAck::Thread { chat_id, topic_id, max_message_id }) => if state.selected_chat_id_spec()
            == Some(chat_id) && state.selected_topic_id_spec() == Some(topic_id) {
            ack
        } else {
            None
        },
        None => None,
    }
}

pub fn keep_ack_for_selection(ack: Option<LoadedReadAck>, state: &AppState) -> (r: Option<LoadedReadAck>)
    ensures
        r == ack_for_selection(ack, *state),
{
    match ack {
        Some(LoadedReadAck::Chat { chat_id, max_message_id }) => {
            if state.selected_chat_id() == Some(chat_id) {
                ack
            } else {
                None
            }
        },
        Some(LoadedReadAck::Thread { chat_id, topic_id, max_message_id }) => {
            if state.selected_chat_id() == Some(chat_id) && state.selected_thread_topic_id() == Some(
                topic_id,
            ) {
                ack
            } else {
                None
            }
        },
        None => None,
    }
}

/// Whether `messages` were loaded for the selected chat and there are some.
pub fn selected_chat_has_displayed_messages(app: &App, chat_id: i64, messages: &Vec<Message>) -> (r: bool)
    ensures
        r == (messages@.len() > 0 && app.state.selected_chat_id_spec() == Some(chat_id)),
{
    messages.len() > 0 && app.state.selected_chat_id() == Some(chat_id)
}

/// Shows the start-up load, clears the progress status and returns what to mark read:
/// the loaded conversation's read acknowledgement when it is still the one selected.
pub fn apply_initial_state_load_result(app: &mut App, load: InitialStateLoadResult) -> (mark_read: Option<LoadedReadAck>)
    ensures
        old(app).state.wf() && (load.result is Ok || old(app).state.selected_folder_index == 0) ==> final(app).state.wf(),
        exists|shown: AppState| {
            &&& #[trigger] initial_load_shown(old(app).state, shown, load.result)
            &&& final(app).state == (AppState { status_message: None, ..shown })
            &&& mark_read == ack_for_selection(initial_load_read_ack_spec(load), shown)
        },
        final(app).should_quit == old(app).should_quit,
        final(app).preferences_path == old(app).preferences_path,
{
    let read_ack = initial_load_read_ack(&load);
    actions::apply_initial_state_load_result(&mut app.state, load.result);
    let ghost shown = app.state;
    let mark_read = keep_ack_for_selection(read_ack, &app.state);
    app.state.clear_status();
    assert(initial_load_shown(old(app).state, shown, load.result));
    mark_read
}

/// How applying a conversation load went: whether anything changed and whether a
/// loaded snapshot was shown.
#[derive(Debug, Clone, Copy, PartialEq, Eq, Structural)]
pub struct ConversationLoadApply {
    pub dirty: bool,
    pub snapshot_applied: bool,
}

/// A folder load answers the latest request for the folder still selected.
pub open spec fn folder_load_current(state: AppState, latest_request_id: u64, load: FolderChatLoadResult) -> bool {
    &&& load.request_id == latest_request_id
    &&& state.selected_folder_index == load.folder_index
    &&& state.selected_folder_filter_spec() == load.folder_id
}

/// `new` is `old` after folder load `load` was taken with outcome `r`: a load that does
/// not answer the latest request for the folder still selected changes nothing; else the
/// folder's chats are shown (see `folder_load_shown`), the status line is cleared, and the
/// load's read acknowledgement is kept when it is for what is shown.
pub open spec fn folder_load_applied(
    old: AppState,
    new: AppState,
    latest_request_id: u64,
    load: FolderChatLoadResult,
    r: (ConversationLoadApply, Option<LoadedReadAck>),
) -> bool {
    if !folder_load_current(old, latest_request_id, load) {
        &&& r == (ConversationLoadApply { dirty: false, snapshot_applied: false }, None::<LoadedReadAck>)
        &&& new == old
    } else {
        exists|shown: AppState|
            #![trigger folder_load_shown(old, shown, load.result)]
            {
                &&& folder_load_shown(old, shown, load.result)
                &&& new == (AppState { status_message: None, ..shown })
                &&& r.0 == ConversationLoadApply { dirty: true, snapshot_applied: load.result is Ok }
                &&& r.1 == ack_for_selection(folder_chat_load_read_ack_spec(load), shown)
            }
    }
}

/// Shows a folder's chats when they answer the latest request for the folder still
/// selected (else nothing changes), and returns the outcome with what to mark read.
pub fn apply_folder_chat_load_result_with_outcome(app: &mut App, latest_request_id: u64, load: FolderChatLoadResult) -> (r: (ConversationLoadApply, Option<LoadedReadAck>))
    ensures
        old(app).state.wf() ==> final(app).state.wf(),
        *final(app) == (App { state: final(app).state, ..*old(app) }),
        folder_load_applied(old(app).state, final(app).state, latest_request_id, load, r),
{
    if load.request_id != latest_request_id {
        return (ConversationLoadApply { dirty: false, snapshot_applied: false }, None);
    }
    if app.state.selected_folder_index != load.folder_index || app.state.selected_folder_filter_id()
        != load.folder_id {
        return (ConversationLoadApply { dirty: false, snapshot_applied: false }, None);
    }
    let snapshot_applied = load.result.is_ok();
    let read_ack = folder_chat_load_read_ack(&load);
    actions::apply_folder_chat_load_result(&mut app.state, load.result);
    let ghost shown = app.state;
    let mark_read = keep_ack_for_selection(read_ack, &app.state);
    app.state.clear_status();
    assert(folder_load_shown(old(app).state, shown, load.result));
    (ConversationLoadApply { dirty: true, snapshot_applied }, mark_read)
}

/// `apply_folder_chat_load_result_with_outcome`, reporting only whether anything changed.
pub fn apply_folder_chat_load_result(app: &mut App, latest_request_id: u64, load: FolderChatLoadResult) -> (r: (bool, Option<LoadedReadAck>))
    ensures
        old(app).state.wf() ==> final(app).state.wf(),
        !folder_load_current(old(app).state, latest_request_id, load) ==> {
            &&& r == (false, None::<LoadedReadAck>)
            &&& final(app).state == old(app).state
        },
        folder_load_current(old(app).state, latest_request_id, load) ==> exists|shown: AppState| {
            &&& #[trigger] folder_load_shown(old(app).state, shown, load.result)
            &&& final(app).state == (AppState { status_message: None, ..shown })
            &&& r.0
            &&& r.1 == ack_for_selection(folder_chat_load_read_ack_spec(load), shown)
        },
        final(app).should_quit == old(app).should_quit,
        final(app).preferences_path == old(app).preferences_path,
{
    let (outcome, mark_read) = apply_folder_chat_load_result_with_outcome(app, latest_request_id, load);
    (outcome.dirty, mark_read)
}

// ----- older history -----

/// Older messages as the loop receives them, with the request they answer.
#[derive(Debug)]
pub struct OlderMessageLoadResult {
    pub request_id: u64,
    pub chat_id: i64,
    pub topic_id: Option<i32>,
    pub before_message_id: i32,
    pub navigation: OlderMessageNavigation,
    pub result: Result<Vec<Message>, String>,
}

/// Older messages answer the latest request for the conversation still shown, whose
/// first message is still the one they precede.
pub open spec fn older_load_current(state: AppState, latest_request_id: u64, load: OlderMessageLoadResult) -> bool {
    &&& load.request_id == latest_request_id
    &&& state.selected_chat_id_spec() == Some(load.chat_id)
    &&& state.selected_topic_id_spec() == load.topic_id
    &&& AppState::first_id(state.messages@) == Some(load.before_message_id)
}

/// Shows older messages when they are current (see `older_load_current`), else ignores
/// them. When some were added the progress status is cleared and the selection moves as
/// the key that asked for them said. Returns whether they were applied.
pub fn apply_older_message_load_result(app: &mut App, latest_request_id: u64, load: OlderMessageLoadResult) -> (applied: bool)
    ensures
        old(app).state.wf() ==> final(app).state.wf(),
        applied == older_load_current(old(app).state, latest_request_id, load),
        !applied ==> final(app).state == old(app).state,
        applied ==> exists|shown: AppState, added: usize| {
            &&& #[trigger] older_messages_shown(old(app).state, shown, load.result, added)
            &&& added == 0 ==> final(app).state == shown
            &&& added > 0 ==> final(app).state == (AppState {
                status_message: None,
                selected_message_index: match load.navigation {
                    OlderMessageNavigation::OneLine => AppState::prev_index(shown.selected_message_index),
                    OlderMessageNavigation::Page => AppState::page_up_index(
                        shown.selected_message_index,
                        shown.message_page_size,
                    ),
                },
                ..shown
            })
        },
        final(app).should_quit == old(app).should_quit,
        final(app).preferences_path == old(app).preferences_path,
{
    if load.request_id != latest_request_id {
        return false;
    }
    if app.state.selected_chat_id() != Some(load.chat_id) {
        return false;
    }
    if app.state.selected_thread_topic_id() != load.topic_id {
        return false;
    }
    let first = if app.state.messages.len() > 0 {
        Some(app.state.messages[0].id)
    } else {
        None
    };
    if first != Some(load.before_message_id) {
        return false;
    }
    let navigation = load.navigation;
    let added = actions::apply_older_chat_messages_result(&mut app.state, load.result);
    let ghost shown = app.state;
    if added > 0 {
        app.state.clear_status();
        apply_older_message_navigation(&mut app.state, navigation);
    }
    assert(older_messages_shown(old(app).state, shown, load.result, added));
    true
}

// ----- message outcomes -----

/// The topic of the first loaded message of `chat_id` with id `message_id` among
/// `ms[..n]`: `None` when there is none, else `Some` of its topic.
pub open spec fn pending_topic(ms: Seq<Message>, chat_id: i64, message_id: i32, n: int) -> Option<Option<i32>>
    decreases n,
{
    if n <= 0 {
        None
    } else {
        let earlier = pending_topic(ms, chat_id, message_id, n - 1);
        if earlier is Some {
            earlier
        } else if ms[n - 1].chat_id == chat_id && ms[n - 1].id == message_id {
            Some(ms[n - 1].thread_topic_id)
        } else {
            None
        }
    }
}

fn find_pending_topic(ms: &Vec<Message>, chat_id: i64, message_id: i32) -> (r: Option<Option<i32>>)
    ensures
        r == pending_topic(ms@, chat_id, message_id, ms@.len() as int),
{
    let mut i: usize = 0;
    while i < ms.len()
        invariant
            i <= ms@.len(),
            pending_topic(ms@, chat_id, message_id, i as int) is None,
        decreases ms.len() - i,
    {
        if ms[i].chat_id == chat_id && ms[i].id == message_id {
            proof {
                lemma_pending_topic_stays(ms@, chat_id, message_id, i + 1, ms@.len() as int);
            }
            return Some(ms[i].thread_topic_id);
        }
        i += 1;
    }
    None
}

proof fn lemma_pending_topic_stays(ms: Seq<Message>, chat_id: i64, message_id: i32, i: int, n: int)
    requires
        0 <= i <= n,
        pending_topic(ms, chat_id, message_id, i) is Some,
    ensures
        pending_topic(ms, chat_id, message_id, n) == pending_topic(ms, chat_id, message_id, i),
    decreases n - i,
{
    if n > i {
        lemma_pending_topic_stays(ms, chat_id, message_id, i, n - 1);
    }
}

/// A send's outcome as the loop receives it.
#[derive(Debug)]
pub struct SendMessageResult {
    pub temp_id: i32,
    pub chat_id: i64,
    pub result: Result<Message, String>,
}

/// A send's outcome belongs to what is shown: its chat is selected and its pending
/// message is loaded, in the selected topic.
pub open spec fn send_result_current(state: AppState, load: SendMessageResult) -> bool {
    &&& state.selected_chat_id_spec() == Some(load.chat_id)
    &&& pending_topic(state.messages@, load.chat_id, load.temp_id, state.messages@.len() as int)
        == Some(state.selected_topic_id_spec())
}

/// Shows a send's outcome when it belongs to what is shown (see `send_result_current`);
/// a stale one is ignored.
pub fn apply_send_message_result(app: &mut App, load: SendMessageResult)
    ensures
        old(app).state.wf() ==> final(app).state.wf(),
        send_result_current(old(app).state, load) ==> send_result_shown(old(app).state, final(app).state, load.temp_id, load.result),
        !send_result_current(old(app).state, load) ==> final(app).state == old(app).state,
        final(app).should_quit == old(app).should_quit,
        final(app).preferences_path == old(app).preferences_path,
{
    let pending = find_pending_topic(&app.state.messages, load.chat_id, load.temp_id);
    let selected_topic = app.state.selected_thread_topic_id();
    let matches_scope = match pending {
        Some(topic) => topic == selected_topic,
        None => false,
    };
    if app.state.selected_chat_id() == Some(load.chat_id) && matches_scope {
        actions::apply_send_message_result(&mut app.state, load.temp_id, load.result);
    }
}

/// A delete's outcome as the loop receives it.
#[derive(Debug)]
pub struct DeleteMessageResult {
    pub confirmation: DeleteConfirmation,
    pub result: Result<(), String>,
}

/// Shows a delete's outcome.
pub fn apply_delete_message_result(app: &mut App, load: DeleteMessageResult)
    ensures
        old(app).state.wf() ==> final(app).state.wf(),
        delete_result_shown(old(app).state, final(app).state, load.confirmation, load.result),
        final(app).should_quit == old(app).should_quit,
        final(app).preferences_path == old(app).preferences_path,
{
    actions::apply_delete_message_result(&mut app.state, load.confirmation, load.result);
}

/// An edit's outcome as the loop receives it.
#[derive(Debug)]
pub struct EditMessageResult {
    pub chat_id: i64,
    pub message_id: i32,
    pub content: String,
    pub result: Result<(), String>,
}

/// An edit's outcome belongs to what is shown: its chat selected, the message still being
/// edited and still loaded.
pub open spec fn edit_result_current(state: AppState, load: EditMessageResult) -> bool {
    &&& state.selected_chat_id_spec() == Some(load.chat_id)
    &&& state.editing_message_id == Some(load.message_id)
    &&& exists|j: int| 0 <= j < state.messages@.len() && #[trigger] state.messages@[j].chat_id
        == load.chat_id && state.messages@[j].id == load.message_id
}

/// Shows an edit's outcome when it belongs to what is shown; a stale one is ignored.
pub fn apply_edit_message_result(app: &mut App, load: EditMessageResult)
    ensures
        old(app).state.wf() ==> final(app).state.wf(),
        edit_result_current(old(app).state, load) ==> edit_result_shown(old(app).state, final(app).state, load.message_id, load.content, load.result),
        !edit_result_current(old(app).state, load) ==> final(app).state == old(app).state,
        final(app).should_quit == old(app).should_quit,
        final(app).preferences_path == old(app).preferences_path,
{
    if app.state.selected_chat_id() == Some(load.chat_id) && app.state.editing_message_id == Some(
        load.message_id,
    ) && app.state.has_message_identity(load.chat_id, load.message_id) {
        actions::apply_edit_message_result(&mut app.state, load.message_id, load.content, load.result);
    }
}


/// Shows a progress status: `Loading …` statuses are left to the loading indicator and
/// change nothing; any other status becomes the status line.
pub fn show_progress(app: &mut App, status: &str)
    ensures
        old(app).state.wf() ==> final(app).state.wf(),
        ("Loading "@.len() <= status@.len() && status@.subrange(0, "Loading "@.len() as int) == "Loading "@)
            ==> final(app).state == old(app).state,
        !("Loading "@.len() <= status@.len() && status@.subrange(0, "Loading "@.len() as int) == "Loading "@)
            ==> status_reported(old(app).state, final(app).state, status@),
        final(app).should_quit == old(app).should_quit,
        final(app).preferences_path == old(app).preferences_path,
{
    if !is_loading_progress_status(status) {
        app.state.set_status(status);
    }
}

// ----- media and links -----

/// The state after `status` was reported: shown as the status line, replacing an error,
/// and nothing else changed.
pub open spec fn status_reported(old: AppState, new: AppState, status: Seq<char>) -> bool {
    &&& new.status_message is Some
    &&& new.status_message->0@ == status
    &&& new == (AppState { status_message: new.status_message, error_message: None, ..old })
}


/// The selected message's text to copy; a message without text (only whitespace), or no
/// selected message, is reported instead.
pub fn selected_text_to_copy(app: &mut App) -> (text: Option<String>)
    ensures
        match old(app).state.selected_message_spec() {
            Some(m) => if trim_spec(m.content@).len() > 0 {
                text matches Some(t) && t@ == m.content@ && final(app).state == old(app).state
            } else {
                text is None && status_reported(old(app).state, final(app).state, NO_TEXT_IN_SELECTED_MESSAGE_STATUS@)
            },
            None => text is None && status_reported(old(app).state, final(app).state, NO_TEXT_IN_SELECTED_MESSAGE_STATUS@),
        },
        final(app).should_quit == old(app).should_quit,
        final(app).preferences_path == old(app).preferences_path,
        old(app).state.wf() ==> final(app).state.wf(),
{
    let text = match app.state.selected_message() {
        Some(message) => {
            let trimmed = trim_chars(&chars_of(message.content.as_str()));
            if trimmed.len() > 0 {
                Some(message.content.clone())
            } else {
                None
            }
        },
        None => None,
    };
    if text.is_none() {
        app.state.set_status(NO_TEXT_IN_SELECTED_MESSAGE_STATUS);
    }
    text
}

/// The selected message's chat, id and media kind when it has downloadable media.
pub open spec fn media_request_spec(state: AppState) -> Option<(i64, i32, MessageMediaKind)> {
    match state.selected_message_spec() {
        Some(m) => match m.media {
            Some(media) => if media.kind.is_downloadable_spec() {
                Some((m.chat_id, m.id, media.kind))
            } else {
                None
            },
            None => None,
        },
        None => None,
    }
}

/// What to download for the selected message (see `media_request_spec`); without
/// downloadable media the lack of it is reported.
pub fn selected_media_download_request(app: &mut App) -> (r: Option<(i64, i32, MessageMediaKind)>)
    ensures
        old(app).state.wf() ==> final(app).state.wf(),
        r == media_request_spec(old(app).state),
        r is Some ==> final(app).state == old(app).state,
        r is None ==> status_reported(old(app).state, final(app).state, NO_MEDIA_IN_SELECTED_MESSAGE_STATUS@),
        final(app).should_quit == old(app).should_quit,
        final(app).preferences_path == old(app).preferences_path,
{
    let request = match app.state.selected_message() {
        Some(message) => match &message.media {
            Some(media) => if media.kind.is_downloadable() {
                Some((message.chat_id, message.id, media.kind))
            } else {
                None
            },
            None => None,
        },
        None => None,
    };
    if request.is_none() {
        app.state.set_status(NO_MEDIA_IN_SELECTED_MESSAGE_STATUS);
    }
    request
}

/// The first URL in the selected message's text, if any.
pub open spec fn selected_link_spec(state: AppState) -> Option<Seq<char>> {
    match state.selected_message_spec() {
        Some(m) => if links_spec(m.content@).len() > 0 {
            Some(links_spec(m.content@)[0].url)
        } else {
            None
        },
        None => None,
    }
}

/// The link to open for the selected message (see `selected_link_spec`); without one the
/// lack of it is reported and nothing is opened.
pub fn open_selected_message_link(app: &mut App) -> (url: Option<String>)
    ensures
        old(app).state.wf() ==> final(app).state.wf(),
        match url {
            Some(u) => selected_link_spec(old(app).state) == Some(u@),
            None => selected_link_spec(old(app).state) is None,
        },
        url is Some ==> final(app).state == old(app).state,
        url is None ==> status_reported(old(app).state, final(app).state, NO_LINK_IN_SELECTED_MESSAGE_STATUS@),
        final(app).should_quit == old(app).should_quit,
        final(app).preferences_path == old(app).preferences_path,
{
    let url = match app.state.selected_message() {
        Some(message) => first_url(message.content.as_str()),
        None => None,
    };
    if url.is_none() {
        app.state.set_status(NO_LINK_IN_SELECTED_MESSAGE_STATUS);
    }
    url
}

/// Reports how opening a link went: `Link opened`, or `Open link failed: <error>`.
pub fn apply_link_open_result(app: &mut App, result: Result<(), String>)
    ensures
        old(app).state.wf() ==> final(app).state.wf(),
        match result {
            Ok(_) => status_reported(old(app).state, final(app).state, LINK_OPENED_STATUS@),
            Err(e) => {
                &&& final(app).state.error_message is Some
                &&& final(app).state.error_message->0@ == OPEN_LINK_FAILED_PREFIX@ + ": "@ + e@
                &&& final(app).state == (AppState {
                    status_message: None,
                    error_message: final(app).state.error_message,
                    ..old(app).state
                })
            },
        },
        final(app).should_quit == old(app).should_quit,
        final(app).preferences_path == old(app).preferences_path,
{
    match result {
        Ok(_) => app.state.set_status(LINK_OPENED_STATUS),
        Err(error) => {
            let prefix = concat(OPEN_LINK_FAILED_PREFIX, ": ");
            app.state.set_error(concat(prefix.as_str(), error.as_str()));
        },
    }
}


// ----- keys outside the input -----

/// The work a key outside the input leaves for the event loop.
#[derive(Debug, Clone)]
pub enum NavigationAction {
    /// Nothing left to do.
    Nothing,
    /// Delete this message (the confirmation was accepted).
    DeleteMessage(DeleteConfirmation),
    LoadOlderMessages { chat_id: i64, topic_id: Option<i32>, before_message_id: i32, navigation: OlderMessageNavigation },
    OpenSelectedThreadTopic,
    OpenLink(String),
    CopySelectedText,
    DownloadMedia { chat_id: i64, message_id: i32, kind: MessageMediaKind },
    OpenDownloadedMedia,
    OpenChatAt(usize),
    OpenFolderAt(usize),
    /// The shown preferences changed and should be saved.
    SavePreferences,
    /// Load the newest messages of this chat and topic across the gap left while the
    /// newer history had this generation.
    RefreshNewerGap { chat_id: i64, topic_id: Option<i32>, generation: u64 },
}

/// What the folder bar does with `key` (see `handle_folder_key`).
pub open spec fn folder_key_outcome(state: AppState, key: KeyEvent) -> FolderKeyOutcome {
    if state.focused_panel != FocusedPanel::Folders {
        FolderKeyOutcome::Ignored
    } else {
        match key.code {
            KeyCode::Down => FolderKeyOutcome::Handled,
            KeyCode::Up => FolderKeyOutcome::Handled,
            KeyCode::Left => FolderKeyOutcome::OpenPreviousFolder,
            KeyCode::Right => FolderKeyOutcome::OpenNextFolder,
            _ => FolderKeyOutcome::Ignored,
        }
    }
}

/// The navigation after a key outside the input, when no delete confirmation is open
/// and the key asks for no older history: the message list, then the chat list, then the
/// folder bar, then the application keys get the key, each passing it on when it ignores
/// it (see `handle_normal_navigation`).
pub open spec fn panel_navigation_done(old: AppState, new: AppState, old_quit: bool, new_quit: bool, key: KeyEvent, action: NavigationAction) -> bool {
    let mo = message_key_effect(old, old, key).0;
    let co = chat_key_effect(old, new, key).0;
    let fo = folder_key_outcome(old, key);
    if mo != MessageKeyOutcome::Ignored {
        &&& new_quit == old_quit
        &&& match mo {
            MessageKeyOutcome::OpenSelectedLink => match selected_link_spec(old) {
                Some(u) => action matches NavigationAction::OpenLink(v) && v@ == u && new == old,
                None => action is Nothing && status_reported(old, new, NO_LINK_IN_SELECTED_MESSAGE_STATUS@),
            },
            MessageKeyOutcome::DownloadSelectedMedia => match media_request_spec(old) {
                Some((chat_id, message_id, kind)) => action == (NavigationAction::DownloadMedia { chat_id, message_id, kind })
                    && status_reported(old, new, DOWNLOADING_MEDIA_STATUS@),
                None => action is Nothing && status_reported(old, new, NO_MEDIA_IN_SELECTED_MESSAGE_STATUS@),
            },
            _ => {
                &&& message_key_effect(old, new, key) == (mo, true)
                &&& match mo {
                    MessageKeyOutcome::OpenSelectedThreadTopic => action is OpenSelectedThreadTopic,
                    MessageKeyOutcome::CopySelectedText => action is CopySelectedText,
                    MessageKeyOutcome::OpenDownloadedMedia => action is OpenDownloadedMedia,
                    _ => action is Nothing,
                }
            },
        }
    } else if co != ChatKeyOutcome::Ignored {
        &&& new_quit == old_quit
        &&& chat_key_effect(old, new, key).1
        &&& match co {
            ChatKeyOutcome::OpenNextChat => action == NavigationAction::OpenChatAt((old.selected_chat_index + 1) as usize),
            ChatKeyOutcome::OpenChatAt(i) => action == NavigationAction::OpenChatAt(i),
            _ => action is Nothing,
        }
    } else if fo != FolderKeyOutcome::Ignored {
        &&& new_quit == old_quit
        &&& match fo {
            FolderKeyOutcome::OpenPreviousFolder => new == old && match previous_folder_spec(old.selected_folder_index as int, old.folders@.len() as int) {
                Some(i) => action == NavigationAction::OpenFolderAt(i as usize),
                None => action is Nothing,
            },
            FolderKeyOutcome::OpenNextFolder => new == old && match next_folder_spec(old.selected_folder_index as int, old.folders@.len() as int) {
                Some(i) => action == NavigationAction::OpenFolderAt(i as usize),
                None => action is Nothing,
            },
            _ => action is Nothing && new == (if key.code == KeyCode::Down {
                AppState { focused_panel: FocusedPanel::Chats, ..old }
            } else {
                old
            }),
        }
    } else {
        let (ao, shown) = app_key_effect(old, key);
        &&& new == shown
        &&& new_quit == (old_quit || ao == AppKeyOutcome::Quit)
        &&& if ao == AppKeyOutcome::Handled && AppPreferences::from_state_spec(old) != AppPreferences::from_state_spec(new) {
            action is SavePreferences
        } else {
            action is Nothing
        }
    }
}

proof fn lemma_ignored_message_key_keeps_state(old: AppState, new: AppState, key: KeyEvent)
    requires
        message_key_effect(old, new, key).0 == MessageKeyOutcome::Ignored,
        message_key_effect(old, new, key).1,
    ensures
        new == old,
        message_key_effect(old, old, key).0 == MessageKeyOutcome::Ignored,
{
}

proof fn lemma_message_outcome_ignores_result(old: AppState, new: AppState, key: KeyEvent)
    ensures
        message_key_effect(old, new, key).0 == message_key_effect(old, old, key).0,
{
}

proof fn lemma_not_loading_status(status: Seq<char>)
    requires
        status.len() > 0,
        status[0] != 'L',
    ensures
        !("Loading "@.len() <= status.len() && status.subrange(0, "Loading "@.len() as int) == "Loading "@),
{
    reveal_strlit("Loading ");
    if "Loading "@.len() <= status.len() && status.subrange(0, "Loading "@.len() as int) == "Loading "@ {
        assert(status.subrange(0, "Loading "@.len() as int)[0] == status[0]);
    }
}

/// The panels' part of `handle_normal_navigation`: the message, chat and folder keys,
/// then the application keys (see `panel_navigation_done`).
#[verifier::rlimit(60)]
#[verifier::spinoff_prover]
fn panel_navigation(app: &mut App, key: KeyEvent) -> (action: NavigationAction)
    requires
        old(app).state.wf(),
        old(app).state.delete_confirmation is None,
        older_navigation_spec(old(app).state, key) is None,
    ensures
        final(app).state.wf(),
        final(app).preferences_path == old(app).preferences_path,
        panel_navigation_done(old(app).state, final(app).state, old(app).should_quit, final(app).should_quit, key, action),
{
    proof {
        reveal_strlit("Loading ");
        reveal_strlit("Downloading media…");
        lemma_not_loading_status(DOWNLOADING_MEDIA_STATUS@);
    }
    let ghost start = app.state;
    let selected_chat = app.state.selected_chat_index;
    let chat_count = app.state.chats.len();
    proof {
        lemma_message_outcome_ignores_result(start, start, key);
    }
    let message_outcome = handle_message_key(&mut app.state, key);
    proof {
        lemma_message_outcome_ignores_result(start, app.state, key);
    }
    match message_outcome {
        MessageKeyOutcome::Handled => return NavigationAction::Nothing,
        MessageKeyOutcome::OpenSelectedThreadTopic => return NavigationAction::OpenSelectedThreadTopic,
        MessageKeyOutcome::OpenSelectedLink => {
            return match open_selected_message_link(app) {
                Some(url) => NavigationAction::OpenLink(url),
                None => NavigationAction::Nothing,
            };
        },
        MessageKeyOutcome::CopySelectedText => return NavigationAction::CopySelectedText,
        MessageKeyOutcome::DownloadSelectedMedia => {
            return match selected_media_download_request(app) {
                Some((chat_id, message_id, kind)) => {
                    show_progress(app, DOWNLOADING_MEDIA_STATUS);
                    NavigationAction::DownloadMedia { chat_id, message_id, kind }
                },
                None => NavigationAction::Nothing,
            };
        },
        MessageKeyOutcome::OpenDownloadedMedia => return NavigationAction::OpenDownloadedMedia,
        MessageKeyOutcome::Ignored => {},
    }
    proof {
        lemma_ignored_message_key_keeps_state(start, app.state, key);
    }
    match handle_chat_key(&mut app.state, key) {
        ChatKeyOutcome::Handled => return NavigationAction::Nothing,
        ChatKeyOutcome::OpenNextChat => {
            assert(selected_chat < chat_count || selected_chat == 0);
            return NavigationAction::OpenChatAt(selected_chat + 1);
        },
        ChatKeyOutcome::OpenChatAt(index) => return NavigationAction::OpenChatAt(index),
        ChatKeyOutcome::Ignored => {},
    }
    match handle_folder_key(&mut app.state, key) {
        FolderKeyOutcome::Handled => return NavigationAction::Nothing,
        FolderKeyOutcome::OpenPreviousFolder => {
            return match previous_folder_index(&app.state) {
                Some(index) => NavigationAction::OpenFolderAt(index),
                None => NavigationAction::Nothing,
            };
        },
        FolderKeyOutcome::OpenNextFolder => {
            return match next_folder_index(&app.state) {
                Some(index) => NavigationAction::OpenFolderAt(index),
                None => NavigationAction::Nothing,
            };
        },
        FolderKeyOutcome::Ignored => {},
    }
    let before = AppPreferences::from_state(&app.state);
    match handle_app_key(&mut app.state, key) {
        AppKeyOutcome::Handled => {
            if preferences_changed(&before, &app.state) {
                NavigationAction::SavePreferences
            } else {
                NavigationAction::Nothing
            }
        },
        AppKeyOutcome::Ignored => NavigationAction::Nothing,
        AppKeyOutcome::Quit => {
            app.quit();
            NavigationAction::Nothing
        },
    }
}

/// With the messages focused and newer messages left out, End, or Down or Page Down on the
/// last loaded message, asks for the newest messages.
pub open spec fn gap_refresh_requested_spec(s: AppState, key: KeyEvent) -> bool {
    &&& s.focused_panel == FocusedPanel::Messages
    &&& s.newer_history_gap
    &&& (key.code == KeyCode::End || (s.messages@.len() > 0 && s.selected_message_index + 1 == s.messages@.len()
        && (key.code == KeyCode::Down || key.code == KeyCode::PageDown)))
}

/// Whether `key` asks for the newest messages across the gap (see
/// `gap_refresh_requested_spec`).
pub fn newer_gap_refresh_requested(app: &App, key: &KeyEvent) -> (r: bool)
    ensures
        r == gap_refresh_requested_spec(app.state, *key),
{
    if app.state.focused_panel != FocusedPanel::Messages || !app.state.newer_history_gap() {
        return false;
    }
    let down = match key.code {
        KeyCode::Down | KeyCode::PageDown => true,
        _ => false,
    };
    let end = match key.code {
        KeyCode::End => true,
        _ => false,
    };
    end || (app.state.selected_message_is_last() && down)
}

/// What a key outside the input does (see `handle_normal_navigation`).
#[verifier::opaque]
pub open spec fn navigation_done(old: App, new: App, key: KeyEvent, action: NavigationAction) -> bool {
    &&& (old.state.delete_confirmation is Some ==> new.should_quit == old.should_quit && match confirm_key_spec(key) {
        ConfirmKeyOutcome::Confirm => {
            &&& action == NavigationAction::DeleteMessage(old.state.delete_confirmation->0)
            &&& new.state.status_message is Some
            &&& new.state.status_message->0@ == DELETING_MESSAGE_STATUS@
            &&& new.state == (AppState {
                status_message: new.state.status_message,
                error_message: None,
                delete_confirmation: None,
                ..old.state
            })
        },
        ConfirmKeyOutcome::Cancel => action is Nothing && new.state == (AppState { delete_confirmation: None, ..old.state }),
        ConfirmKeyOutcome::Ignored => action is Nothing && new.state == old.state,
    })
    &&& (old.state.delete_confirmation is None && gap_refresh_requested_spec(old.state, key) ==> {
        &&& new.should_quit == old.should_quit
        &&& new.state == old.state
        &&& action == match old.state.selected_chat_id_spec() {
            Some(chat_id) => NavigationAction::RefreshNewerGap {
                chat_id,
                topic_id: old.state.selected_topic_id_spec(),
                generation: old.state.newer_history_generation,
            },
            None => NavigationAction::Nothing,
        }
    })
    &&& (old.state.delete_confirmation is None && !gap_refresh_requested_spec(old.state, key)
        && older_navigation_spec(old.state, key) is Some ==> {
        &&& new.should_quit == old.should_quit
        &&& match action {
            NavigationAction::LoadOlderMessages { chat_id, topic_id, before_message_id, navigation } => {
                &&& navigation == older_navigation_spec(old.state, key)->0
                &&& older_request_done(old.state, new.state, Some((chat_id, topic_id, before_message_id)))
            },
            NavigationAction::Nothing => older_request_done(old.state, new.state, None),
            _ => false,
        }
    })
    &&& (old.state.delete_confirmation is None && !gap_refresh_requested_spec(old.state, key)
        && older_navigation_spec(old.state, key) is None ==> panel_navigation_done(
        old.state,
        new.state,
        old.should_quit,
        new.should_quit,
        key,
        action,
    ))
}

/// A key outside the input, after the global keys passed it on. With a delete
/// confirmation open it answers the confirmation; a key asking for the newest messages
/// across the gap (see `gap_refresh_requested_spec`) asks for them; Up or Page Up on the
/// first loaded message asks for older history; otherwise the panels handle it (see
/// `panel_navigation_done`). Returns the work left for the event loop.
#[verifier::spinoff_prover]
pub fn handle_normal_navigation(app: &mut App, key: KeyEvent) -> (action: NavigationAction)
    requires
        old(app).state.wf(),
    ensures
        final(app).state.wf(),
        final(app).preferences_path == old(app).preferences_path,
        navigation_done(*old(app), *final(app), key, action),
{
    proof {
        reveal(navigation_done);
        reveal_strlit("Loading ");
        reveal_strlit("Loading chat messages…");
        assert(LOADING_CHAT_MESSAGES_STATUS@.subrange(0, "Loading "@.len() as int) =~= "Loading "@);
        reveal_strlit("Deleting message…");
        reveal_strlit("Loading older messages…");
        reveal_strlit("Downloading media…");
        lemma_not_loading_status(DELETING_MESSAGE_STATUS@);
        lemma_not_loading_status(DOWNLOADING_MEDIA_STATUS@);
        assert(LOADING_OLDER_MESSAGES_STATUS@.subrange(0, "Loading "@.len() as int) =~= "Loading "@);
    }
    if app.state.delete_confirmation().is_some() {
        match handle_confirm_key(key) {
            ConfirmKeyOutcome::Confirm => {
                show_progress(app, DELETING_MESSAGE_STATUS);
                return match actions::begin_confirm_delete(&mut app.state) {
                    Some(confirmation) => NavigationAction::DeleteMessage(confirmation),
                    None => NavigationAction::Nothing,
                };
            },
            ConfirmKeyOutcome::Cancel => {
                app.state.cancel_delete_confirmation();
                return NavigationAction::Nothing;
            },
            ConfirmKeyOutcome::Ignored => return NavigationAction::Nothing,
        }
    }
    if newer_gap_refresh_requested(app, &key) {
        let chat_id = match app.state.selected_chat_id() {
            Some(id) => id,
            None => return NavigationAction::Nothing,
        };
        let topic_id = app.state.selected_thread_topic_id();
        let generation = app.state.newer_history_generation();
        show_progress(app, LOADING_CHAT_MESSAGES_STATUS);
        return NavigationAction::RefreshNewerGap { chat_id, topic_id, generation };
    }
    if let Some(navigation) = older_message_key_navigation(&app.state, &key) {
        show_progress(app, LOADING_OLDER_MESSAGES_STATUS);
        return match actions::selected_older_messages_request(&mut app.state) {
            Some((chat_id, topic_id, before_message_id)) => NavigationAction::LoadOlderMessages {
                chat_id,
                topic_id,
                before_message_id,
                navigation,
            },
            None => NavigationAction::Nothing,
        };
    }
    panel_navigation(app, key)
}

// ----- updates -----

/// The id of the first of `topics[..n]` whose id is `topic_id`, as its top message id.
pub open spec fn topic_top_message(topics: Seq<ThreadTopic>, topic_id: i32, n: int) -> Option<i32>
    decreases n,
{
    if n <= 0 {
        None
    } else {
        let earlier = topic_top_message(topics, topic_id, n - 1);
        if earlier is Some {
            earlier
        } else if topics[n - 1].id == topic_id {
            Some(topics[n - 1].top_message_id)
        } else {
            None
        }
    }
}

/// A new message is already represented by a loaded conversation when the snapshot's
/// last message id for its chat is at least its id, or when its chat is selected and
/// either (same topic) a loaded message of the chat has an id at least its id, or (other
/// topic) that topic's top message id is at least its id.
pub open spec fn represented_by_loaded_spec(state: AppState, update: Update, last_ids: Option<Map<i64, i32>>) -> bool {
    match update {
        Update::NewMessage(m) => {
            if last_ids matches Some(ids) && ids.contains_key(m.chat_id) && m.id <= ids[m.chat_id] {
                true
            } else if state.selected_chat_id_spec() != Some(m.chat_id) {
                false
            } else if m.thread_topic_id == state.selected_topic_id_spec() {
                exists|j: int| 0 <= j < state.messages@.len() && #[trigger] state.messages@[j].chat_id
                    == m.chat_id && state.messages@[j].id >= m.id
            } else {
                match m.thread_topic_id {
                    Some(t) => match topic_top_message(state.thread_topics@, t, state.thread_topics@.len() as int) {
                        Some(top) => top >= m.id,
                        None => false,
                    },
                    None => false,
                }
            }
        },
        Update::Error(_) => false,
    }
}

fn loaded_message_at_least(ms: &Vec<Message>, chat_id: i64, id: i32) -> (r: bool)
    ensures
        r == exists|j: int| 0 <= j < ms@.len() && #[trigger] ms@[j].chat_id == chat_id && ms@[j].id >= id,
{
    let mut i: usize = 0;
    while i < ms.len()
        invariant
            i <= ms@.len(),
            forall|j: int| 0 <= j < i ==> !(#[trigger] ms@[j].chat_id == chat_id && ms@[j].id >= id),
        decreases ms.len() - i,
    {
        if ms[i].chat_id == chat_id && ms[i].id >= id {
            return true;
        }
        i += 1;
    }
    false
}

fn find_topic_top_message(topics: &Vec<ThreadTopic>, topic_id: i32) -> (r: Option<i32>)
    ensures
        r == topic_top_message(topics@, topic_id, topics@.len() as int),
{
    let mut i: usize = 0;
    while i < topics.len()
        invariant
            i <= topics@.len(),
            topic_top_message(topics@, topic_id, i as int) is None,
        decreases topics.len() - i,
    {
        if topics[i].id == topic_id {
            proof {
                lemma_topic_top_stays(topics@, topic_id, i + 1, topics@.len() as int);
            }
            return Some(topics[i].top_message_id);
        }
        i += 1;
    }
    None
}

proof fn lemma_topic_top_stays(topics: Seq<ThreadTopic>, topic_id: i32, i: int, n: int)
    requires
        0 <= i <= n,
        topic_top_message(topics, topic_id, i) is Some,
    ensures
        topic_top_message(topics, topic_id, n) == topic_top_message(topics, topic_id, i),
    decreases n - i,
{
    if n > i {
        lemma_topic_top_stays(topics, topic_id, i, n - 1);
    }
}

/// Whether a pushed update is already shown by a conversation that was just loaded (see
/// `represented_by_loaded_spec`); `chat_last_message_ids` are the snapshot's last message
/// id per chat, when it has them.
pub fn update_represented_by_loaded_conversation(app: &App, update: &Update, chat_last_message_ids: Option<&HashMap<i64, i32>>) -> (r: bool)
    ensures
        r == represented_by_loaded_spec(
            app.state,
            *update,
            match chat_last_message_ids {
                Some(ids) => Some(ids@),
                None => None,
            },
        ),
{
    let m = match update {
        Update::NewMessage(m) => m,
        Update::Error(_) => return false,
    };
    if let Some(ids) = chat_last_message_ids {
        if let Some(last_id) = ids.get(&m.chat_id) {
            if m.id <= *last_id {
                return true;
            }
        }
    }
    if app.state.selected_chat_id() != Some(m.chat_id) {
        return false;
    }
    let selected_topic_id = app.state.selected_thread_topic_id();
    if m.thread_topic_id == selected_topic_id {
        return loaded_message_at_least(&app.state.messages, m.chat_id, m.id);
    }
    match m.thread_topic_id {
        Some(topic_id) => match find_topic_top_message(&app.state.thread_topics, topic_id) {
            Some(top) => top >= m.id,
            None => false,
        },
        None => false,
    }
}

/// A new message outside the selected conversation is already represented by the last
/// reconciliation when its id is at most the highest id reconciliation saw for its chat.
pub open spec fn represented_by_reconciliation_spec(state: AppState, update: Update, high_water_ids: Map<i64, i32>) -> bool {
    match update {
        Update::NewMessage(m) => {
            let in_selected = state.selected_chat_id_spec() == Some(m.chat_id)
                && state.selected_topic_id_spec() == m.thread_topic_id;
            &&& !in_selected
            &&& high_water_ids.contains_key(m.chat_id)
            &&& m.id <= high_water_ids[m.chat_id]
        },
        Update::Error(_) => false,
    }
}

/// Whether a pushed update is a duplicate of what reconciliation already brought.
pub fn update_represented_by_reconciliation(app: &App, update: &Update, high_water_ids: &HashMap<i64, i32>) -> (r: bool)
    ensures
        r == represented_by_reconciliation_spec(app.state, *update, high_water_ids@),
{
    let m = match update {
        Update::NewMessage(m) => m,
        Update::Error(_) => return false,
    };
    let in_selected = app.state.selected_chat_id() == Some(m.chat_id) && app.state.selected_thread_topic_id()
        == m.thread_topic_id;
    if in_selected {
        return false;
    }
    match high_water_ids.get(&m.chat_id) {
        Some(last_id) => m.id <= *last_id,
        None => false,
    }
}

/// The label an update gets in the drain trace: `update:<error>` for errors, else
/// `update`.
pub fn update_trace_label(update: &Update) -> (r: String)
    ensures
        r@ == match *update {
            Update::Error(e) => "update:"@ + e@,
            Update::NewMessage(_) => "update"@,
        },
{
    match update {
        Update::Error(error) => concat("update:", error.as_str()),
        Update::NewMessage(_) => String::from_str("update"),
    }
}

} // verus!
