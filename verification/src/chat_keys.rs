//! Keys of the chat list, including the chat search.

use crate::keys::{KeyCode, KeyEvent};
use crate::state::{AppState, FocusedPanel};
use crate::text::ascii_lower_spec;
use vstd::prelude::*;

verus! {

#[derive(Debug, Clone, Copy, PartialEq, Eq, Structural)]
pub enum ChatKeyOutcome {
    Handled,
    OpenNextChat,
    OpenChatAt(usize),
    Ignored,
}

/// The search state after typing into it; only the search fields may differ.
pub open spec fn search_changed(old: AppState, new: AppState) -> bool {
    new == (AppState {
        chat_search: new.chat_search,
        chat_search_selected: new.chat_search_selected,
        chat_search_scroll_offset: new.chat_search_scroll_offset,
        ..old
    })
}

/// While a search is open: Escape closes it, Enter closes it and opens the highlighted
/// match (if any), Backspace and plain characters edit the query, Down and Up move the
/// highlight, and every other key is swallowed.
pub open spec fn search_key_effect(old: AppState, new: AppState, key: KeyEvent) -> (
    ChatKeyOutcome,
    bool,
) {
    let closed = (AppState {
        chat_search: None,
        chat_search_selected: 0,
        chat_search_scroll_offset: 0,
        ..old
    });
    match key.code {
        KeyCode::Esc => (ChatKeyOutcome::Handled, new == closed),
        KeyCode::Enter => (
            match old.selected_search_result_spec() {
                Some(i) => ChatKeyOutcome::OpenChatAt(i),
                None => ChatKeyOutcome::Handled,
            },
            new == closed,
        ),
        KeyCode::Backspace => (
            ChatKeyOutcome::Handled,
            search_changed(old, new) && new.chat_search is Some && new.chat_search->0@ == (if old.query_spec().len()
                > 0 {
                old.query_spec().drop_last()
            } else {
                Seq::empty()
            }) && new.chat_search_selected == 0,
        ),
        KeyCode::Down => (
            ChatKeyOutcome::Handled,
            new == (AppState {
                chat_search_selected: AppState::next_index(
                    old.chat_search_selected,
                    old.display_indices_spec().len(),
                ),
                ..old
            }),
        ),
        KeyCode::Up => (
            ChatKeyOutcome::Handled,
            new == (AppState {
                chat_search_selected: AppState::prev_index(old.chat_search_selected),
                ..old
            }),
        ),
        KeyCode::Char(c) => if key.modifiers.is_none_spec() {
            (
                ChatKeyOutcome::Handled,
                search_changed(old, new) && new.chat_search is Some && new.chat_search->0@
                    == old.query_spec().push(c) && new.chat_search_selected == 0,
            )
        } else {
            (ChatKeyOutcome::Handled, new == old)
        },
        _ => (ChatKeyOutcome::Handled, new == old),
    }
}

/// Without a search: `/` opens one, Down asks for the next chat when there is one, Up
/// asks for the previous chat unless at the top, Left and Right move the focus to the
/// folders and the messages, and a plain character other than `q`/`Q` jumps to the next
/// chat whose name starts with it.
pub open spec fn list_key_effect(old: AppState, new: AppState, key: KeyEvent) -> (
    ChatKeyOutcome,
    bool,
) {
    match key.code {
        KeyCode::Char(c) => if c == '/' && key.modifiers.is_none_spec() {
            (
                ChatKeyOutcome::Handled,
                search_changed(old, new) && new.chat_search is Some && new.chat_search->0@.len()
                    == 0 && new.chat_search_selected == 0,
            )
        } else if key.modifiers.is_none_spec() && ascii_lower_spec(c) != 'q' {
            (
                match old.next_chat_starting_with_spec(c) {
                    Some(i) => ChatKeyOutcome::OpenChatAt(i),
                    None => ChatKeyOutcome::Ignored,
                },
                new == old,
            )
        } else {
            (ChatKeyOutcome::Ignored, new == old)
        },
        KeyCode::Down => if old.selected_chat_index + 1 < old.chats@.len() {
            (ChatKeyOutcome::OpenNextChat, new == old)
        } else {
            (ChatKeyOutcome::Handled, new == old)
        },
        KeyCode::Up => if old.chats@.len() == 0 || old.selected_chat_index == 0 {
            (ChatKeyOutcome::Handled, new == old)
        } else {
            (ChatKeyOutcome::OpenChatAt((old.selected_chat_index - 1) as usize), new == old)
        },
        KeyCode::Left => (
            ChatKeyOutcome::Handled,
            new == (AppState { focused_panel: FocusedPanel::Folders, ..old }),
        ),
        KeyCode::Right => (
            ChatKeyOutcome::Handled,
            new == (AppState { focused_panel: FocusedPanel::Messages, ..old }),
        ),
        _ => (ChatKeyOutcome::Ignored, new == old),
    }
}

pub open spec fn chat_key_effect(old: AppState, new: AppState, key: KeyEvent) -> (
    ChatKeyOutcome,
    bool,
) {
    if old.focused_panel != FocusedPanel::Chats {
        (ChatKeyOutcome::Ignored, new == old)
    } else if old.chat_search is Some {
        search_key_effect(old, new, key)
    } else {
        list_key_effect(old, new, key)
    }
}

pub fn handle_chat_key(state: &mut AppState, key: KeyEvent) -> (r: ChatKeyOutcome)
    ensures
        old(state).wf() ==> final(state).wf(),
        r == chat_key_effect(*old(state), *final(state), key).0,
        chat_key_effect(*old(state), *final(state), key).1,
{
    if state.focused_panel != FocusedPanel::Chats {
        return ChatKeyOutcome::Ignored;
    }
    if state.chat_search_active() {
        return match key.code {
            KeyCode::Esc => {
                state.clear_chat_search();
                ChatKeyOutcome::Handled
            },
            KeyCode::Enter => {
                let selected = state.selected_chat_search_result_index();
                state.clear_chat_search();
                match selected {
                    Some(i) => ChatKeyOutcome::OpenChatAt(i),
                    None => ChatKeyOutcome::Handled,
                }
            },
            KeyCode::Backspace => {
                state.pop_chat_search_char();
                ChatKeyOutcome::Handled
            },
            KeyCode::Down => {
                state.select_next_chat_search_match();
                ChatKeyOutcome::Handled
            },
            KeyCode::Up => {
                state.select_previous_chat_search_match();
                ChatKeyOutcome::Handled
            },
            KeyCode::Char(c) => {
                if key.modifiers.is_none() {
                    state.push_chat_search_char(c);
                }
                ChatKeyOutcome::Handled
            },
            _ => ChatKeyOutcome::Handled,
        };
    }
    match key.code {
        KeyCode::Char(c) => {
            if c == '/' && key.modifiers.is_none() {
                state.begin_chat_search();
                ChatKeyOutcome::Handled
            } else if key.modifiers.is_none() && crate::text::ascii_lower(c) != 'q' {
                match state.next_chat_index_starting_with(c) {
                    Some(i) => ChatKeyOutcome::OpenChatAt(i),
                    None => ChatKeyOutcome::Ignored,
                }
            } else {
                ChatKeyOutcome::Ignored
            }
        },
        KeyCode::Down => {
            if state.selected_chat_index < state.chats.len() && state.selected_chat_index + 1
                < state.chats.len() {
                ChatKeyOutcome::OpenNextChat
            } else {
                ChatKeyOutcome::Handled
            }
        },
        KeyCode::Up => {
            if state.chats.len() == 0 || state.selected_chat_index == 0 {
                ChatKeyOutcome::Handled
            } else {
                ChatKeyOutcome::OpenChatAt(state.selected_chat_index - 1)
            }
        },
        KeyCode::Left => {
            state.focused_panel = FocusedPanel::Folders;
            ChatKeyOutcome::Handled
        },
        KeyCode::Right => {
            state.focused_panel = FocusedPanel::Messages;
            ChatKeyOutcome::Handled
        },
        _ => ChatKeyOutcome::Ignored,
    }
}

} // verus!
