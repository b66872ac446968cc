//! Keys of the message list.

use crate::keys::{KeyCode, KeyEvent};
use crate::state::{delete_requested, edit_requested, reply_requested, AppState, FocusedPanel};
use vstd::prelude::*;

verus! {

#[derive(Debug, Clone, Copy, PartialEq, Eq, Structural)]
pub enum MessageKeyOutcome {
    Handled,
    OpenSelectedThreadTopic,
    OpenSelectedLink,
    CopySelectedText,
    DownloadSelectedMedia,
    OpenDownloadedMedia,
    Ignored,
}

/// With the message list focused: PageDown, PageUp, Home, End, Down and Up move the
/// selection; Left and Right (and `[` and `]`) switch topics when the chat has some (Left
/// without topics goes back to the chats); Enter focuses the input; `e`, `r`, `d` start an
/// edit, a reply or a deletion of the selected message; `o`, `c`, `s`, `v` ask for the
/// link, copy, download and open actions. Nothing happens in other panels.
pub open spec fn message_key_effect(old: AppState, new: AppState, key: KeyEvent) -> (
    MessageKeyOutcome,
    bool,
) {
    if old.focused_panel != FocusedPanel::Messages {
        (MessageKeyOutcome::Ignored, new == old)
    } else {
        let topics = old.thread_topics@.len() > 0;
        let prev_topic = (AppState {
            selected_thread_topic_index: AppState::prev_index(old.selected_thread_topic_index),
            ..old
        });
        let next_topic = (AppState {
            selected_thread_topic_index: AppState::next_index(
                old.selected_thread_topic_index,
                old.thread_topics@.len(),
            ),
            ..old
        });
        match key.code {
            KeyCode::PageDown => (
                MessageKeyOutcome::Handled,
                new == (AppState {
                    selected_message_index: AppState::page_down_index(
                        old.selected_message_index,
                        old.message_page_size,
                        old.messages@.len(),
                    ),
                    ..old
                }),
            ),
            KeyCode::PageUp => (
                MessageKeyOutcome::Handled,
                new == (AppState {
                    selected_message_index: AppState::page_up_index(
                        old.selected_message_index,
                        old.message_page_size,
                    ),
                    ..old
                }),
            ),
            KeyCode::Home => (
                MessageKeyOutcome::Handled,
                new == (AppState { selected_message_index: 0, ..old }),
            ),
            KeyCode::End => (
                MessageKeyOutcome::Handled,
                new == (AppState {
                    selected_message_index: AppState::last_index(old.messages@.len()),
                    ..old
                }),
            ),
            KeyCode::Down => (
                MessageKeyOutcome::Handled,
                new == (AppState {
                    selected_message_index: AppState::next_index(
                        old.selected_message_index,
                        old.messages@.len(),
                    ),
                    ..old
                }),
            ),
            KeyCode::Up => (
                MessageKeyOutcome::Handled,
                new == (AppState {
                    selected_message_index: AppState::prev_index(old.selected_message_index),
                    ..old
                }),
            ),
            KeyCode::Left => if !topics {
                (
                    MessageKeyOutcome::Handled,
                    new == (AppState { focused_panel: FocusedPanel::Chats, ..old }),
                )
            } else {
                (MessageKeyOutcome::OpenSelectedThreadTopic, new == prev_topic)
            },
            KeyCode::Right => if !topics {
                (MessageKeyOutcome::Handled, new == old)
            } else {
                (MessageKeyOutcome::OpenSelectedThreadTopic, new == next_topic)
            },
            KeyCode::Enter => (
                MessageKeyOutcome::Handled,
                new == (AppState { focused_panel: FocusedPanel::Input, ..old }),
            ),
            KeyCode::Char(c) => if c == '[' {
                (MessageKeyOutcome::OpenSelectedThreadTopic, new == prev_topic)
            } else if c == ']' {
                (MessageKeyOutcome::OpenSelectedThreadTopic, new == next_topic)
            } else if c == 'e' {
                (MessageKeyOutcome::Handled, edit_requested(old, new))
            } else if c == 'r' {
                (MessageKeyOutcome::Handled, reply_requested(old, new))
            } else if c == 'd' {
                (MessageKeyOutcome::Handled, delete_requested(old, new))
            } else if c == 'o' {
                (MessageKeyOutcome::OpenSelectedLink, new == old)
            } else if c == 'c' {
                (MessageKeyOutcome::CopySelectedText, new == old)
            } else if c == 's' {
                (MessageKeyOutcome::DownloadSelectedMedia, new == old)
            } else if c == 'v' {
                (MessageKeyOutcome::OpenDownloadedMedia, new == old)
            } else {
                (MessageKeyOutcome::Ignored, new == old)
            },
            _ => (MessageKeyOutcome::Ignored, new == old),
        }
    }
}

pub fn handle_message_key(state: &mut AppState, key: KeyEvent) -> (r: MessageKeyOutcome)
    ensures
        old(state).wf() ==> final(state).wf(),
        r == message_key_effect(*old(state), *final(state), key).0,
        message_key_effect(*old(state), *final(state), key).1,
{
    if state.focused_panel != FocusedPanel::Messages {
        return MessageKeyOutcome::Ignored;
    }
    match key.code {
        KeyCode::PageDown => state.page_messages_down(),
        KeyCode::PageUp => state.page_messages_up(),
        KeyCode::Home => state.select_first_message(),
        KeyCode::End => state.select_last_message(),
        KeyCode::Down => state.select_next_message(),
        KeyCode::Up => state.select_prev_message(),
        KeyCode::Left => {
            if state.thread_topics.len() == 0 {
                state.focused_panel = FocusedPanel::Chats;
            } else {
                state.select_prev_thread_topic();
                return MessageKeyOutcome::OpenSelectedThreadTopic;
            }
        },
        KeyCode::Right => {
            if state.thread_topics.len() > 0 {
                state.select_next_thread_topic();
                return MessageKeyOutcome::OpenSelectedThreadTopic;
            }
        },
        KeyCode::Enter => state.focused_panel = FocusedPanel::Input,
        KeyCode::Char(c) => {
            if c == '[' {
                state.select_prev_thread_topic();
                return MessageKeyOutcome::OpenSelectedThreadTopic;
            } else if c == ']' {
                state.select_next_thread_topic();
                return MessageKeyOutcome::OpenSelectedThreadTopic;
            } else if c == 'e' {
                state.request_edit_selected_message();
            } else if c == 'r' {
                state.request_reply_to_selected_message();
            } else if c == 'd' {
                state.request_delete_selected_message();
            } else if c == 'o' {
                return MessageKeyOutcome::OpenSelectedLink;
            } else if c == 'c' {
                return MessageKeyOutcome::CopySelectedText;
            } else if c == 's' {
                return MessageKeyOutcome::DownloadSelectedMedia;
            } else if c == 'v' {
                return MessageKeyOutcome::OpenDownloadedMedia;
            } else {
                return MessageKeyOutcome::Ignored;
            }
        },
        _ => return MessageKeyOutcome::Ignored,
    }
    MessageKeyOutcome::Handled
}

} // verus!
