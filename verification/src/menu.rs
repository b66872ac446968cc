//! What the context menu does: the keys it takes while open, what taking one of its
//! entries does to the state and leaves for the event loop, and how a mouse event is
//! routed while a delete confirmation may be waiting.

use crate::app::App;
use crate::keys::{KeyCode, KeyEvent};
use crate::mouse_events::{
    click_done, handle_mouse_click, handle_mouse_scroll, scroll_outcome, ContextMenu, ContextMenuAction,
    ContextMenuTarget, MouseClickOutcome, MouseEvent, MouseScrollOutcome,
};
use crate::mouse_state::{chat_position, context_actions_spec, message_position, moved_highlight};
use crate::session::{
    media_request_spec, open_selected_message_link, selected_link_spec, selected_media_download_request,
    show_progress, status_reported, DOWNLOADING_MEDIA_STATUS, NO_LINK_IN_SELECTED_MESSAGE_STATUS,
    NO_MEDIA_IN_SELECTED_MESSAGE_STATUS, REFRESHING_LATEST_BEFORE_SEND_STATUS,
};
use crate::state::{delete_requested, edit_requested, reply_requested, AppState};
use crate::types::{Chat, MessageMediaKind};
use vstd::prelude::*;

verus! {

/// What a key does while a context menu may be open.
#[derive(Debug, Clone, Copy, PartialEq, Eq, Structural)]
pub enum ContextMenuKeyOutcome {
    /// No menu is open; the key goes on to the other handlers.
    NoMenu,
    /// The menu took the key.
    Handled,
    /// The menu closed, taking this entry of this target.
    Take(ContextMenuTarget, ContextMenuAction),
}

/// The state with the open menu's highlight moved by `delta`.
pub open spec fn highlight_moved(s: AppState, delta: i32) -> AppState {
    match s.context_menu {
        Some(m) => AppState {
            context_menu: Some(ContextMenu { highlighted: moved_highlight(m.highlighted, delta, m.actions@.len()), ..m }),
            ..s
        },
        None => s,
    }
}

/// What a key does to the context menu (see `handle_context_menu_key`).
pub open spec fn menu_key_done(old: AppState, new: AppState, key: KeyEvent, r: ContextMenuKeyOutcome) -> bool {
    &&& (old.context_menu is None ==> r is NoMenu && new == old)
    &&& (old.context_menu matches Some(m) ==> match key.code {
        KeyCode::Esc => r is Handled && new == (AppState { context_menu: None, ..old }),
        KeyCode::Char(c) => if c == 'c' && key.modifiers.control {
            r is Handled && new == (AppState { context_menu: None, ..old })
        } else {
            r is Handled && new == old
        },
        KeyCode::Up => r is Handled && new == highlight_moved(old, -1i32),
        KeyCode::Down => r is Handled && new == highlight_moved(old, 1i32),
        KeyCode::Enter => if m.highlighted < m.actions@.len() {
            &&& r == ContextMenuKeyOutcome::Take(m.target, m.actions@[m.highlighted as int])
            &&& new == (AppState { context_menu: None, ..old })
        } else {
            r is Handled && new == old
        },
        _ => r is Handled && new == old,
    })
}

/// While a menu is open it takes every key: Esc or Ctrl-C closes it, Up and Down move the
/// highlight, Enter takes the highlighted entry; other keys do nothing.
pub fn handle_context_menu_key(state: &mut AppState, key: KeyEvent) -> (r: ContextMenuKeyOutcome)
    ensures
        old(state).wf() ==> final(state).wf(),
        menu_key_done(*old(state), *final(state), key, r),
{
    if state.context_menu().is_none() {
        return ContextMenuKeyOutcome::NoMenu;
    }
    match key.code {
        KeyCode::Esc => {
            state.close_context_menu();
            ContextMenuKeyOutcome::Handled
        },
        KeyCode::Char(c) => {
            if c == 'c' && key.modifiers.control {
                state.close_context_menu();
            }
            ContextMenuKeyOutcome::Handled
        },
        KeyCode::Up => {
            state.move_context_menu_highlight(-1);
            ContextMenuKeyOutcome::Handled
        },
        KeyCode::Down => {
            state.move_context_menu_highlight(1);
            ContextMenuKeyOutcome::Handled
        },
        KeyCode::Enter => match state.take_highlighted_context_menu_action() {
            Some((target, action)) => ContextMenuKeyOutcome::Take(target, action),
            None => ContextMenuKeyOutcome::Handled,
        },
        _ => ContextMenuKeyOutcome::Handled,
    }
}

/// The work a context menu entry leaves for the event loop.
#[derive(Debug, Clone, PartialEq, Eq)]
pub enum MenuEffect {
    /// Nothing left to do.
    Nothing,
    /// Open the chat at this position of the chat list.
    OpenChatAt(usize),
    /// Tell Telegram that this chat was read.
    MarkChatRead(i64),
    /// Copy this chat name to the clipboard, then report `CHAT_NAME_COPIED_STATUS`.
    CopyChatName(String),
    /// Copy the selected message's text (see `selected_text_to_copy`).
    CopySelectedText,
    /// Open this link.
    OpenLink(String),
    /// Download the media of this message.
    DownloadMedia { chat_id: i64, message_id: i32, kind: MessageMediaKind },
    /// Open the downloaded file of the selected message.
    OpenDownloadedMedia,
}

/// `new` differs from `old` only in its state.
pub open spec fn only_state_changed(old: App, new: App) -> bool {
    &&& new.should_quit == old.should_quit
    &&& new.preferences_path == old.preferences_path
}

/// What a message entry does once its message is selected (the state `s`).
pub open spec fn message_entry_done(s: AppState, new: AppState, action: ContextMenuAction, r: MenuEffect) -> bool {
    match action {
        ContextMenuAction::ReplyMessage => r is Nothing && reply_requested(s, new),
        ContextMenuAction::EditMessage => r is Nothing && edit_requested(s, new),
        ContextMenuAction::CopyMessageText => r is CopySelectedText && new == s,
        ContextMenuAction::OpenMessageLink => match selected_link_spec(s) {
            Some(url) => r matches MenuEffect::OpenLink(u) && u@ == url && new == s,
            None => r is Nothing && status_reported(s, new, NO_LINK_IN_SELECTED_MESSAGE_STATUS@),
        },
        ContextMenuAction::SaveMessageMedia => match media_request_spec(s) {
            Some(req) => r == (MenuEffect::DownloadMedia { chat_id: req.0, message_id: req.1, kind: req.2 })
                && status_reported(s, new, DOWNLOADING_MEDIA_STATUS@),
            None => r is Nothing && status_reported(s, new, NO_MEDIA_IN_SELECTED_MESSAGE_STATUS@),
        },
        ContextMenuAction::OpenDownloadedMedia => r is OpenDownloadedMedia && new == s,
        ContextMenuAction::DeleteMessage | ContextMenuAction::DismissFailedSend => r is Nothing && delete_requested(s, new),
        _ => r is Nothing && new == s,
    }
}

/// What taking `action` of a menu on `target` does. An entry the target does not offer
/// does nothing. A chat entry opens the chat, marks it read (here and at Telegram), or
/// copies its name. A message entry selects the message and then replies to it, edits
/// it, copies it, opens its link, saves its media, opens its saved file, or asks to
/// delete (or dismiss) it.
#[verifier::opaque]
pub open spec fn menu_action_done(old: App, new: App, target: ContextMenuTarget, action: ContextMenuAction, r: MenuEffect) -> bool {
    &&& only_state_changed(old, new)
    &&& if !context_actions_spec(old.state, target).contains(action) {
        r is Nothing && new.state == old.state
    } else {
        match target {
            ContextMenuTarget::Chat { chat_id } => match chat_position(old.state.chats@, chat_id, 0) {
                Some(i) => match action {
                    ContextMenuAction::OpenChat => r == MenuEffect::OpenChatAt(i as usize) && new.state == old.state,
                    ContextMenuAction::MarkChatRead => {
                        &&& r == MenuEffect::MarkChatRead(chat_id)
                        &&& new.state == (AppState { chats: new.state.chats, ..old.state })
                        &&& new.state.chats@ == old.state.chats@.update(i, Chat { unread_count: 0, ..old.state.chats@[i] })
                    },
                    ContextMenuAction::CopyChatName => r matches MenuEffect::CopyChatName(name)
                        && name@ == old.state.chats@[i].name@ && new.state == old.state,
                    _ => r is Nothing && new.state == old.state,
                },
                None => r is Nothing && new.state == old.state,
            },
            ContextMenuTarget::Message { chat_id, message_id } => match message_position(old.state.messages@, chat_id, message_id, 0) {
                Some(i) => message_entry_done(
                    AppState { selected_message_index: i as usize, ..old.state },
                    new.state,
                    action,
                    r,
                ),
                None => r is Nothing && new.state == old.state,
            },
        }
    }
}

fn actions_contain(actions: &Vec<ContextMenuAction>, action: ContextMenuAction) -> (r: bool)
    ensures
        r == actions@.contains(action),
{
    let mut k: usize = 0;
    while k < actions.len()
        invariant
            k <= actions@.len(),
            forall|j: int| 0 <= j < k ==> actions@[j] != action,
        decreases actions.len() - k,
    {
        if actions[k] == action {
            assert(actions@[k as int] == action);
            return true;
        }
        k += 1;
    }
    false
}

/// Takes `action` of a menu on `target` (see `menu_action_done`).
pub fn execute_context_menu_action(app: &mut App, target: ContextMenuTarget, action: ContextMenuAction) -> (r: MenuEffect)
    ensures
        old(app).state.wf() ==> final(app).state.wf(),
        menu_action_done(*old(app), *final(app), target, action, r),
{
    proof {
        reveal(menu_action_done);
    }
    let offered = app.state.context_actions_for_target(target);
    if !actions_contain(&offered, action) {
        return MenuEffect::Nothing;
    }
    match target {
        ContextMenuTarget::Chat { chat_id } => {
            let index = match app.state.chat_index_by_id(chat_id) {
                Some(i) => i,
                None => return MenuEffect::Nothing,
            };
            proof {
                crate::mouse_state::lemma_chat_position_range(app.state.chats@, chat_id, 0);
            }
            match action {
                ContextMenuAction::OpenChat => MenuEffect::OpenChatAt(index),
                ContextMenuAction::MarkChatRead => {
                    app.state.mark_chat_read_locally(chat_id);
                    MenuEffect::MarkChatRead(chat_id)
                },
                ContextMenuAction::CopyChatName => MenuEffect::CopyChatName(app.state.chats[index].name.clone()),
                _ => MenuEffect::Nothing,
            }
        },
        ContextMenuTarget::Message { chat_id, message_id } => {
            if !app.state.select_message_by_identity(chat_id, message_id) {
                return MenuEffect::Nothing;
            }
            match action {
                ContextMenuAction::ReplyMessage => {
                    app.state.request_reply_to_selected_message();
                    MenuEffect::Nothing
                },
                ContextMenuAction::EditMessage => {
                    app.state.request_edit_selected_message();
                    MenuEffect::Nothing
                },
                ContextMenuAction::CopyMessageText => MenuEffect::CopySelectedText,
                ContextMenuAction::OpenMessageLink => match open_selected_message_link(app) {
                    Some(url) => MenuEffect::OpenLink(url),
                    None => MenuEffect::Nothing,
                },
                ContextMenuAction::SaveMessageMedia => match selected_media_download_request(app) {
                    Some((chat_id, message_id, kind)) => {
                        proof {
                            reveal_strlit("Loading ");
                            reveal_strlit("Downloading media…");
                            assert(DOWNLOADING_MEDIA_STATUS@[0] != "Loading "@[0]);
                            assert(!(DOWNLOADING_MEDIA_STATUS@.subrange(0, "Loading "@.len() as int) == "Loading "@)) by {
                                assert(DOWNLOADING_MEDIA_STATUS@.subrange(0, "Loading "@.len() as int)[0] == DOWNLOADING_MEDIA_STATUS@[0]);
                            }
                        }
                        show_progress(app, DOWNLOADING_MEDIA_STATUS);
                        MenuEffect::DownloadMedia { chat_id, message_id, kind }
                    },
                    None => MenuEffect::Nothing,
                },
                ContextMenuAction::OpenDownloadedMedia => MenuEffect::OpenDownloadedMedia,
                ContextMenuAction::DeleteMessage | ContextMenuAction::DismissFailedSend => {
                    app.state.request_delete_selected_message();
                    MenuEffect::Nothing
                },
                _ => MenuEffect::Nothing,
            }
        },
    }
}

/// Where a mouse event goes: nowhere while a send or reply is held back until the newest
/// messages are loaded (which is reported) or while a delete confirmation waits; to the
/// wheel handler when it is a wheel event the handler takes; else to the click handler.
pub open spec fn mouse_routed(old: AppState, new: AppState, ev: MouseEvent, r: MouseClickOutcome) -> bool {
    if old.gap_submit is Some {
        r is Ignored && status_reported(old, new, REFRESHING_LATEST_BEFORE_SEND_STATUS@)
    } else if old.delete_confirmation is Some {
        r is Ignored && new == old
    } else if scroll_outcome(old, ev).0 is Handled {
        r is Handled && new == scroll_outcome(old, ev).1
    } else {
        click_done(old, new, ev, r)
    }
}

/// Routes a mouse event (see `mouse_routed`); the outcome says what is left for the
/// event loop.
pub fn route_mouse_event(state: &mut AppState, mouse_event: MouseEvent) -> (r: MouseClickOutcome)
    ensures
        old(state).wf() ==> final(state).wf(),
        mouse_routed(*old(state), *final(state), mouse_event, r),
{
    if state.gap_submit_pending() {
        state.set_status(REFRESHING_LATEST_BEFORE_SEND_STATUS);
        return MouseClickOutcome::Ignored;
    }
    if state.delete_confirmation().is_some() {
        return MouseClickOutcome::Ignored;
    }
    match handle_mouse_scroll(state, mouse_event) {
        MouseScrollOutcome::Handled => return MouseClickOutcome::Handled,
        MouseScrollOutcome::Ignored => {},
    }
    handle_mouse_click(state, mouse_event)
}

} // verus!
