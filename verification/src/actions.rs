//! The state changes that start and finish each Telegram request.
//!
//! Each request is split in two: a `begin_…` step that updates the state and says what to
//! fetch, and an `apply_…` step that takes the request's result (`Ok` value or error
//! text) and shows it.

use crate::state::{AppState, ConversationLoadStatus, DeleteConfirmation, FolderChatCache, NO_CHAT_SELECTED_ERROR};
use crate::types::{Chat, Folder, Message, ThreadTopic};
use crate::text::concat;
use vstd::prelude::*;

verus! {

/// Chats asked for per chat-list page.
pub const CHAT_LIST_PAGE_SIZE: usize = 50;
/// Messages asked for per history page.
pub const MESSAGE_HISTORY_PAGE_SIZE: usize = 20;
/// Topics asked for per forum chat.
pub const CHAT_THREAD_TOPIC_PAGE_SIZE: usize = 50;

pub const NO_OLDER_MESSAGES_STATUS: &'static str = "No older messages";
pub const LOAD_MESSAGES_TIMED_OUT_STATUS: &'static str = "Load messages timed out";
pub const LOAD_OLDER_MESSAGES_TIMED_OUT_STATUS: &'static str = "Load older messages timed out";
pub const LOAD_CHATS_TIMED_OUT_STATUS: &'static str = "Load chats timed out";
pub const LOAD_OLDER_MESSAGES_FAILED_PREFIX: &'static str = "Load older messages failed";
pub const DOWNLOAD_MEDIA_FAILED_PREFIX: &'static str = "Download media failed";

/// `Load older messages failed: <error>`.
pub fn load_older_messages_failed_error(error: &str) -> (r: String)
    ensures
        r@ == LOAD_OLDER_MESSAGES_FAILED_PREFIX@ + ": "@ + error@,
{
    let r = concat(LOAD_OLDER_MESSAGES_FAILED_PREFIX, ": ");
    concat(r.as_str(), error)
}

/// `Download media failed: <error>`.
pub fn download_media_failed_error(error: &str) -> (r: String)
    ensures
        r@ == DOWNLOAD_MEDIA_FAILED_PREFIX@ + ": "@ + error@,
{
    let r = concat(DOWNLOAD_MEDIA_FAILED_PREFIX, ": ");
    concat(r.as_str(), error)
}

/// A message send that has started: the id it is shown under while on its way.
#[derive(Debug, Clone)]
pub struct PendingSend {
    pub temp_id: i32,
    pub chat_id: i64,
    pub thread_top_message_id: Option<i32>,
    pub content: String,
}

/// Takes the deletion waiting for confirmation, closing the prompt.
pub fn begin_confirm_delete(state: &mut AppState) -> (r: Option<DeleteConfirmation>)
    ensures
        old(state).wf() ==> final(state).wf(),
        r == old(state).delete_confirmation,
        *final(state) == (AppState { delete_confirmation: None, ..*old(state) }),
{
    let confirmation = state.delete_confirmation();
    if confirmation.is_some() {
        state.cancel_delete_confirmation();
    }
    confirmation
}

/// The state after a delete request's outcome: on success the message is removed, the
/// selection kept inside the list and the deletion reported; an error is shown.
pub open spec fn delete_result_shown(old: AppState, new: AppState, confirmation: DeleteConfirmation, result: Result<(), String>) -> bool {
    match result {
        Ok(_) => {
            &&& new.messages@ == AppState::without_message(
                old.messages@,
                confirmation,
                old.messages@.len() as int,
            )
            &&& new.status_message is Some
            &&& new.status_message->0@ == crate::state::MESSAGE_DELETED_STATUS@
            &&& new == (AppState {
                messages: new.messages,
                selected_message_index: AppState::clamp_index(
                    old.selected_message_index,
                    new.messages@.len(),
                ),
                delete_confirmation: None,
                status_message: new.status_message,
                error_message: None,
                ..old
            })
        },
        Err(e) => new == (AppState {
            status_message: None,
            error_message: Some(e),
            ..old
        }),
    }
}

/// Shows the outcome of a delete request.
pub fn apply_delete_message_result(
    state: &mut AppState,
    confirmation: DeleteConfirmation,
    result: Result<(), String>,
)
    ensures
        old(state).wf() ==> final(state).wf(),
        delete_result_shown(*old(state), *final(state), confirmation, result),
{
    match result {
        Ok(_) => state.apply_delete_success(confirmation),
        Err(error) => state.apply_delete_failure(error),
    }
}

/// Opens the chat at `chat_index`. Returns the chat to load when the selection changed:
/// the previous chat is left, the old conversation is cleared and marked loading.
/// Without such a chat, or when it is already selected, nothing is loaded.
pub fn begin_open_chat_at(state: &mut AppState, chat_index: usize) -> (r: Option<i64>)
    ensures
        old(state).wf() ==> final(state).wf(),
        chat_index >= old(state).chats@.len() ==> r is None && *final(state) == *old(state),
        chat_index < old(state).chats@.len() && chat_index == old(state).selected_chat_index
            ==> r is None && *final(state) == *old(state),
        chat_index < old(state).chats@.len() && chat_index != old(state).selected_chat_index
            ==> {
            &&& r == Some(old(state).chats@[chat_index as int].id)
            &&& final(state).selected_chat_index == chat_index
            &&& final(state).messages@.len() == 0
            &&& final(state).thread_topics@.len() == 0
            &&& final(state).conversation_load_status == ConversationLoadStatus::Loading
            &&& final(state).delete_confirmation is None
            &&& final(state).editing_message_id is None
            &&& final(state).replying_to_message_id is None
            &&& final(state).chats == old(state).chats
            &&& final(state).folders == old(state).folders
        },
{
    if chat_index >= state.chats.len() {
        return None;
    }
    let old_index = state.selected_chat_index;
    if old_index == chat_index {
        return None;
    }
    state.leave_selected_chat();
    state.select_chat(chat_index);
    state.clear_loaded_chat_messages();
    state.begin_conversation_load();
    state.selected_chat_id()
}

/// The state after asking for older history (see `selected_older_messages_request`).
pub open spec fn older_request_done(old: AppState, new: AppState, r: Option<(i64, Option<i32>, i32)>) -> bool {
    &&& (old.selected_chat_id_spec() is None ==> {
        &&& r is None
        &&& new.error_message is Some
        &&& new.error_message->0@ == NO_CHAT_SELECTED_ERROR@
        &&& new == (AppState {
            status_message: None,
            error_message: new.error_message,
            ..old
        })
    })
    &&& (old.selected_chat_id_spec() is Some && old.messages@.len() == 0 ==> {
        &&& r is None
        &&& new == old
    })
    &&& (old.selected_chat_id_spec() is Some && old.messages@.len() > 0
        && old.exhausted_history@.contains(old.scope_spec()->0) ==> {
        &&& r is None
        &&& new.status_message is Some
        &&& new.status_message->0@ == NO_OLDER_MESSAGES_STATUS@
        &&& new == (AppState {
            status_message: new.status_message,
            error_message: None,
            ..old
        })
    })
    &&& (old.selected_chat_id_spec() is Some && old.messages@.len() > 0
        && !old.exhausted_history@.contains(old.scope_spec()->0) ==> {
        &&& r == Some((old.selected_chat_id_spec()->0, old.selected_topic_id_spec(), old.messages@[0].id))
        &&& new == old
    })
}

/// What to fetch for older history of the selected conversation: its chat, topic and the
/// id of the first loaded message. Without a selected chat the error is shown; with no
/// loaded message nothing is fetched; with exhausted history that is reported.
pub fn selected_older_messages_request(state: &mut AppState) -> (r: Option<(i64, Option<i32>, i32)>)
    ensures
        old(state).wf() ==> final(state).wf(),
        older_request_done(*old(state), *final(state), r),
{
    let chat_id = match state.selected_chat_id() {
        Some(c) => c,
        None => {
            state.set_error(String::from_str(NO_CHAT_SELECTED_ERROR));
            return None;
        },
    };
    let topic_id = state.selected_thread_topic_id();
    if state.messages.len() == 0 {
        return None;
    }
    let before_message_id = state.messages[0].id;
    if state.selected_chat_older_history_exhausted() {
        state.set_status(NO_OLDER_MESSAGES_STATUS);
        return None;
    }
    Some((chat_id, topic_id, before_message_id))
}

/// The state after older messages came back (see `apply_older_chat_messages_result`).
pub open spec fn older_messages_shown(old: AppState, new: AppState, result: Result<Vec<Message>, String>, added: usize) -> bool {
    match result {
        Ok(batch) => {
            let older = AppState::older_part(
                batch@,
                AppState::first_id(old.messages@),
                batch@.len() as int,
            );
            &&& added == older.len()
            &&& new.messages@ == older + old.messages@
            &&& added == 0 ==> {
                &&& new.status_message is Some
                &&& new.status_message->0@ == NO_OLDER_MESSAGES_STATUS@
                &&& new.exhausted_history@ == match old.scope_spec() {
                    Some(scope) => old.exhausted_history@.push(scope),
                    None => old.exhausted_history@,
                }
                &&& new == (AppState {
                    messages: new.messages,
                    status_message: new.status_message,
                    error_message: None,
                    exhausted_history: new.exhausted_history,
                    ..old
                })
            }
            &&& added > 0 ==> new == (AppState {
                messages: new.messages,
                selected_message_index: AppState::shifted(old.selected_message_index, added as nat),
                message_scroll_offset: AppState::shifted(old.message_scroll_offset, added as nat),
                ..old
            })
        },
        Err(e) => added == 0 && new == (AppState {
            status_message: None,
            error_message: Some(e),
            ..old
        }),
    }
}

/// Shows older messages: they are put in front of the loaded ones and the count is
/// returned; when none was new the history is marked exhausted. An error is shown and
/// counts as none.
pub fn apply_older_chat_messages_result(state: &mut AppState, result: Result<Vec<Message>, String>) -> (added:
    usize)
    ensures
        old(state).wf() && old(state).messages@.len() > 0 ==> final(state).wf(),
        older_messages_shown(*old(state), *final(state), result, added),
{
    match result {
        Ok(messages) => {
            let added = state.prepend_loaded_selected_chat_messages(messages);
            if added == 0 {
                state.mark_selected_chat_older_history_exhausted();
                state.set_status(NO_OLDER_MESSAGES_STATUS);
            }
            added
        },
        Err(error) => {
            state.set_error(error);
            0
        },
    }
}

/// Everything loaded at start-up.
#[derive(Debug)]
pub struct InitialStateLoad {
    pub folders: Vec<Folder>,
    pub chats: Vec<Chat>,
    pub messages: Result<Vec<Message>, String>,
    pub thread_topics: Vec<ThreadTopic>,
}

/// The chats of a folder with the first chat's messages and topics.
#[derive(Debug)]
pub struct FolderChatLoad {
    pub chats: Vec<Chat>,
    pub messages: Result<Vec<Message>, String>,
    pub thread_topics: Vec<ThreadTopic>,
}

/// The selected conversation after loading `messages` for the first of `chats`.
pub open spec fn conversation_shown(
    new: AppState,
    chats: Seq<Chat>,
    messages: Result<Vec<Message>, String>,
    topics: Seq<ThreadTopic>,
) -> bool {
    &&& new.thread_topics@ == topics
    &&& new.selected_thread_topic_index == 0
    &&& new.selected_chat_index == 0
    &&& new.chat_scroll_offset == 0
    &&& match messages {
        Ok(m) => if chats.len() == 0 {
            &&& new.messages@.len() == 0
            &&& new.selected_message_index == 0
            &&& new.conversation_load_status == ConversationLoadStatus::Idle
        } else {
            &&& new.messages@ == m@
            &&& new.selected_message_index == AppState::last_index(m@.len())
            &&& new.conversation_load_status == ConversationLoadStatus::Loaded
        },
        Err(_) => {
            &&& new.messages@.len() == 0
            &&& new.selected_message_index == 0
            &&& new.conversation_load_status == ConversationLoadStatus::Failed
        },
    }
}

/// The error shown after loading `messages`: a load error replaces the status line.
pub open spec fn load_error_shown(old: AppState, new: AppState, messages: Result<Vec<Message>, String>) -> bool {
    match messages {
        Ok(_) => new.status_message == old.status_message && new.error_message
            == old.error_message,
        Err(e) => new.status_message is None && new.error_message == Some(e),
    }
}

fn show_loaded_conversation(
    state: &mut AppState,
    messages: Result<Vec<Message>, String>,
    topics: Vec<ThreadTopic>,
)
    requires
        old(state).selected_chat_index == 0,
        old(state).chat_scroll_offset == 0,
    ensures
        old(state).wf() ==> final(state).wf(),
        conversation_shown(*final(state), old(state).chats@, messages, topics@),
        load_error_shown(*old(state), *final(state), messages),
        final(state).chats == old(state).chats,
        final(state).folders == old(state).folders,
        final(state).selected_folder_index == old(state).selected_folder_index,
        final(state).folder_chat_cache == old(state).folder_chat_cache,
        final(state).input_buffer == old(state).input_buffer,
        final(state).selected_chat_index == old(state).selected_chat_index,
        final(state).chat_scroll_offset == old(state).chat_scroll_offset,
{
    match messages {
        Ok(m) => {
            if state.chats.len() == 0 {
                state.clear_loaded_chat_messages();
            } else {
                state.apply_loaded_selected_chat_messages(m);
            }
        },
        Err(error) => {
            state.messages = Vec::new();
            state.selected_message_index = 0;
            state.message_scroll_offset = 0;
            state.mark_conversation_load_failed();
            state.set_error(error);
        },
    }
    state.apply_loaded_selected_chat_thread_topics(topics);
}

/// The state after the start-up load (see `apply_initial_state_load_result`).
pub open spec fn initial_load_shown(old: AppState, new: AppState, result: Result<InitialStateLoad, String>) -> bool {
    match result {
        Ok(load) => {
            &&& new.folders@ == load.folders@
            &&& new.selected_folder_index == (if old.selected_folder_index
                < load.folders@.len() {
                old.selected_folder_index
            } else {
                AppState::last_index(load.folders@.len())
            })
            &&& new.chats@ == load.chats@
            &&& conversation_shown(new, load.chats@, load.messages, load.thread_topics@)
            &&& load_error_shown(old, new, load.messages)
            &&& new.selected_folder_index < load.folders@.len() ==> AppState::cache_lookup(
                new.folder_chat_cache@,
                crate::state::folder_filter_id_spec(load.folders@[new.selected_folder_index as int]),
            ) == Some(load.chats@)
            &&& new.input_buffer == old.input_buffer
        },
        Err(e) => {
            &&& new.folders@.len() == 0
            &&& new.chats@.len() == 0
            &&& new.messages@.len() == 0
            &&& new.thread_topics@.len() == 0
            &&& new.selected_chat_index == 0
            &&& new.conversation_load_status == ConversationLoadStatus::Failed
            &&& new.status_message is None
            &&& new.error_message == Some(e)
            &&& new.input_buffer == old.input_buffer
        },
    }
}

/// Replaces everything shown with the start-up load: the folders (selection kept inside
/// them), the first folder view's chats (cached for that folder, first chat selected) and
/// its conversation. On error everything is cleared and the error shown.
pub fn apply_initial_state_load_result(state: &mut AppState, result: Result<InitialStateLoad, String>)
    ensures
        old(state).wf() && (result is Ok || old(state).selected_folder_index == 0) ==> final(state).wf(),
        initial_load_shown(*old(state), *final(state), result),
{
    state.folders = Vec::new();
    state.chats = Vec::new();
    state.reset_chat_selection();
    state.clear_loaded_chat_messages();
    match result {
        Ok(load) => {
            state.folders = load.folders;
            state.ensure_selected_folder_visible();
            state.chats = load.chats;
            state.cache_selected_folder_chats();
            state.reset_chat_selection();
            show_loaded_conversation(state, load.messages, load.thread_topics);
        },
        Err(error) => {
            state.mark_conversation_load_failed();
            state.set_error(error);
        },
    }
}

/// Starts reloading the selected folder's chats: the chat is left, cached chats for the
/// folder are shown meanwhile (else none), the conversation is cleared and marked
/// loading. Returns the folder's position and filter; nothing happens without folders.
pub fn begin_selected_folder_reload(state: &mut AppState) -> (r: Option<(usize, Option<i32>)>)
    ensures
        old(state).wf() ==> final(state).wf(),
        old(state).folders@.len() == 0 ==> r is None && *final(state) == *old(state),
        old(state).folders@.len() > 0 ==> {
            let key = old(state).selected_folder_filter_spec();
            &&& r == Some((old(state).selected_folder_index, key))
            &&& final(state).chats@ == match AppState::cache_lookup(old(state).folder_chat_cache@, key) {
                Some(cached) => cached,
                None => Seq::empty(),
            }
            &&& final(state).selected_chat_index == 0
            &&& final(state).messages@.len() == 0
            &&& final(state).thread_topics@.len() == 0
            &&& final(state).conversation_load_status == ConversationLoadStatus::Loading
            &&& final(state).delete_confirmation is None
            &&& final(state).folders == old(state).folders
            &&& final(state).selected_folder_index == old(state).selected_folder_index
            &&& final(state).folder_chat_cache == old(state).folder_chat_cache
        },
{
    if state.folders.len() == 0 {
        return None;
    }
    state.leave_selected_chat();
    let folder_id = state.selected_folder_filter_id();
    if !state.restore_cached_folder_chats(folder_id) {
        state.chats = Vec::new();
        state.reset_chat_selection();
    }
    state.clear_loaded_chat_messages();
    state.begin_conversation_load();
    Some((state.selected_folder_index, folder_id))
}

/// The state after a folder's chats came back (see `apply_folder_chat_load_result`).
pub open spec fn folder_load_shown(old: AppState, new: AppState, result: Result<FolderChatLoad, String>) -> bool {
    match result {
        Ok(load) => {
            &&& new.chats@ == load.chats@
            &&& conversation_shown(new, load.chats@, load.messages, load.thread_topics@)
            &&& load_error_shown(old, new, load.messages)
            &&& old.selected_folder_index < old.folders@.len() ==> AppState::cache_lookup(
                new.folder_chat_cache@,
                old.selected_folder_filter_spec(),
            ) == Some(load.chats@)
            &&& new.folders == old.folders
            &&& new.selected_folder_index == old.selected_folder_index
            &&& new.input_buffer == old.input_buffer
        },
        Err(e) => new == (AppState {
            conversation_load_status: ConversationLoadStatus::Failed,
            status_message: None,
            error_message: Some(e),
            ..old
        }),
    }
}

/// Shows a folder's loaded chats (cached for the folder, first chat selected) and the first
/// chat's conversation; an error is shown and marks the conversation failed.
pub fn apply_folder_chat_load_result(state: &mut AppState, result: Result<FolderChatLoad, String>)
    ensures
        old(state).wf() ==> final(state).wf(),
        folder_load_shown(*old(state), *final(state), result),
{
    match result {
        Ok(load) => {
            state.chats = load.chats;
            state.cache_selected_folder_chats();
            state.reset_chat_selection();
            show_loaded_conversation(state, load.messages, load.thread_topics);
        },
        Err(error) => {
            state.mark_conversation_load_failed();
            state.set_error(error);
        },
    }
}

/// The folder chat cache `cache` after the chats shown in `old` were remembered for its
/// selected folder: that folder's entry holds them and every other entry is unchanged
/// (with no folder selected, nothing changes).
pub open spec fn shown_chats_cached(old: AppState, cache: Seq<FolderChatCache>) -> bool {
    if old.selected_folder_index < old.folders@.len() {
        let key = crate::state::folder_filter_id_spec(old.folders@[old.selected_folder_index as int]);
        &&& AppState::cache_lookup(cache, key) == Some(old.chats@)
        &&& forall|k: Option<i32>|
            k != key ==> #[trigger] AppState::cache_lookup(cache, k) == AppState::cache_lookup(old.folder_chat_cache@, k)
    } else {
        cache == old.folder_chat_cache@
    }
}

/// Opens the folder at `folder_index`: the current folder's chats are cached first; when
/// the selection changed the new folder is reloaded (see `begin_selected_folder_reload`),
/// showing the chats cached for it, if any, while it loads.
pub fn begin_open_folder_at(state: &mut AppState, folder_index: usize) -> (r: Option<(usize, Option<i32>)>)
    ensures
        old(state).wf() ==> final(state).wf(),
        shown_chats_cached(*old(state), final(state).folder_chat_cache@),
        (folder_index >= old(state).folders@.len() || folder_index == old(state).selected_folder_index)
            ==> r is None && *final(state) == (AppState {
            folder_chat_cache: final(state).folder_chat_cache,
            ..*old(state)
        }),
        folder_index < old(state).folders@.len() && folder_index != old(state).selected_folder_index
            ==> {
            let key = crate::state::folder_filter_id_spec(old(state).folders@[folder_index as int]);
            &&& r == Some((folder_index, key))
            &&& final(state).selected_folder_index == folder_index
            &&& final(state).chats@ == match AppState::cache_lookup(final(state).folder_chat_cache@, key) {
                Some(cached) => cached,
                None => Seq::empty(),
            }
            &&& final(state).selected_chat_index == 0
            &&& final(state).messages@.len() == 0
            &&& final(state).thread_topics@.len() == 0
            &&& final(state).conversation_load_status == ConversationLoadStatus::Loading
            &&& final(state).delete_confirmation is None
            &&& final(state).folders == old(state).folders
        },
{
    let old_index = state.selected_folder_index;
    state.cache_folder_chats_at(old_index);
    state.select_folder(folder_index);
    if old_index != state.selected_folder_index {
        begin_selected_folder_reload(state)
    } else {
        None
    }
}

/// The state after an edit's outcome: on success the message shows the new text and the
/// composer is cleared; an error is shown.
pub open spec fn edit_result_shown(old: AppState, new: AppState, message_id: i32, content: String, result: Result<(), String>) -> bool {
    match result {
        Ok(_) => {
            &&& new.messages@ == old.messages@.map_values(
                |m: Message| AppState::edited_message(m, message_id, content),
            )
            &&& new.input_buffer@.len() == 0
            &&& new == (AppState {
                messages: new.messages,
                editing_message_id: None,
                input_buffer: new.input_buffer,
                input_cursor: 0,
                status_message: None,
                ..old
            })
        },
        Err(e) => new == (AppState {
            status_message: None,
            error_message: Some(e),
            ..old
        }),
    }
}

/// Shows the outcome of an edit.
pub fn apply_edit_message_result(
    state: &mut AppState,
    message_id: i32,
    content: String,
    result: Result<(), String>,
)
    ensures
        old(state).wf() ==> final(state).wf(),
        edit_result_shown(*old(state), *final(state), message_id, content, result),
{
    match result {
        Ok(_) => state.apply_edit_success(message_id, content),
        Err(error) => state.apply_edit_failure(error),
    }
}

/// The state after a reply's outcome: on success the reply is appended and selected and
/// the composer cleared; an error is shown.
pub open spec fn reply_result_shown(old: AppState, new: AppState, result: Result<Message, String>) -> bool {
    match result {
        Ok(m) => {
            &&& new.messages@ == old.messages@.push(m)
            &&& new.input_buffer@.len() == 0
            &&& new == (AppState {
                messages: new.messages,
                selected_message_index: old.messages@.len() as usize,
                replying_to_message_id: None,
                input_buffer: new.input_buffer,
                input_cursor: 0,
                status_message: None,
                ..old
            })
        },
        Err(e) => new == (AppState {
            status_message: None,
            error_message: Some(e),
            ..old
        }),
    }
}

/// Shows the outcome of a reply.
pub fn apply_reply_message_result(state: &mut AppState, result: Result<Message, String>)
    ensures
        old(state).wf() ==> final(state).wf(),
        reply_result_shown(*old(state), *final(state), result),
{
    match result {
        Ok(message) => state.apply_reply_success(message),
        Err(error) => state.apply_reply_failure(error),
    }
}

/// Starts sending `content`: the message is shown as being sent under a fresh negative id
/// (see `AppState::take_temp_id`), and the returned record says what to send.
pub fn begin_send_message(
    state: &mut AppState,
    chat_id: i64,
    thread_top_message_id: Option<i32>,
    content: String,
    timestamp: i64,
) -> (pending: PendingSend)
    ensures
        old(state).wf() ==> final(state).wf(),
        pending.temp_id == old(state).next_temp_id,
        final(state).next_temp_id == AppState::temp_id_after(old(state).next_temp_id),
        i32::MIN < old(state).next_temp_id < 0 ==> final(state).next_temp_id < pending.temp_id,
        pending.chat_id == chat_id,
        pending.thread_top_message_id == thread_top_message_id,
        pending.content == content,
        final(state).messages@.len() == old(state).messages@.len() + 1,
        final(state).messages@.drop_last() == old(state).messages@,
        final(state).messages@.last() == AppState::pending_message(
            pending.temp_id,
            chat_id,
            thread_top_message_id,
            content,
            final(state).messages@.last().sender_name,
            timestamp,
        ),
        final(state).selected_message_index == old(state).messages@.len(),
        final(state).chats@ == old(state).chats@.map_values(
            |c: Chat| AppState::with_last_message(c, chat_id, content),
        ),
        *final(state) == (AppState {
            messages: final(state).messages,
            selected_message_index: final(state).selected_message_index,
            chats: final(state).chats,
            next_temp_id: final(state).next_temp_id,
            ..*old(state)
        }),
{
    let shown = state.messages.len();
    let temp_id = state.take_temp_id();
    assert(shown == old(state).messages@.len());
    state.apply_send_pending(temp_id, chat_id, thread_top_message_id, content.clone(), timestamp);
    PendingSend { temp_id, chat_id, thread_top_message_id, content }
}

/// The state after a send's outcome: the pending message takes the sent one's place, or
/// is marked failed with the error shown.
pub open spec fn send_result_shown(old: AppState, new: AppState, temp_id: i32, result: Result<Message, String>) -> bool {
    match result {
        Ok(sent) => {
            &&& new.messages@ == old.messages@.map_values(
                |m: Message| AppState::sent_message(m, temp_id, sent),
            )
            &&& new == (AppState {
                messages: new.messages,
                status_message: None,
                ..old
            })
        },
        Err(e) => {
            &&& new.messages@ == old.messages@.map_values(
                |m: Message| AppState::failed_message(m, temp_id, e),
            )
            &&& new == (AppState {
                messages: new.messages,
                status_message: None,
                error_message: Some(e),
                ..old
            })
        },
    }
}

/// Shows the outcome of a send.
pub fn apply_send_message_result(state: &mut AppState, temp_id: i32, result: Result<Message, String>)
    ensures
        old(state).wf() ==> final(state).wf(),
        send_result_shown(*old(state), *final(state), temp_id, result),
{
    match result {
        Ok(sent) => state.apply_send_success(temp_id, sent),
        Err(error) => state.apply_send_failure(temp_id, error),
    }
}

} // verus!
