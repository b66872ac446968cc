//! Keys of the folder bar.

use crate::keys::{KeyCode, KeyEvent};
use crate::state::{AppState, FocusedPanel};
use vstd::prelude::*;

verus! {

#[derive(Debug, Clone, Copy, PartialEq, Eq, Structural)]
pub enum FolderKeyOutcome {
    Handled,
    OpenPreviousFolder,
    OpenNextFolder,
    Ignored,
}

/// With the folder bar focused: Down moves the focus to the chats, Up does nothing, Left
/// and Right ask for the neighbouring folder. Other keys, and any key when the folder bar
/// is not focused, are ignored.
pub fn handle_folder_key(state: &mut AppState, key: KeyEvent) -> (r: FolderKeyOutcome)
    ensures
        old(state).wf() ==> final(state).wf(),
        old(state).focused_panel != FocusedPanel::Folders ==> r == FolderKeyOutcome::Ignored
            && *final(state) == *old(state),
        old(state).focused_panel == FocusedPanel::Folders ==> match key.code {
            KeyCode::Down => r == FolderKeyOutcome::Handled && *final(state) == (AppState {
                focused_panel: FocusedPanel::Chats,
                ..*old(state)
            }),
            KeyCode::Up => r == FolderKeyOutcome::Handled && *final(state) == *old(state),
            KeyCode::Left => r == FolderKeyOutcome::OpenPreviousFolder && *final(state) == *old(state),
            KeyCode::Right => r == FolderKeyOutcome::OpenNextFolder && *final(state) == *old(state),
            _ => r == FolderKeyOutcome::Ignored && *final(state) == *old(state),
        },
{
    if state.focused_panel != FocusedPanel::Folders {
        return FolderKeyOutcome::Ignored;
    }
    match key.code {
        KeyCode::Down => {
            state.focused_panel = FocusedPanel::Chats;
            FolderKeyOutcome::Handled
        },
        KeyCode::Up => FolderKeyOutcome::Handled,
        KeyCode::Left => FolderKeyOutcome::OpenPreviousFolder,
        KeyCode::Right => FolderKeyOutcome::OpenNextFolder,
        _ => FolderKeyOutcome::Ignored,
    }
}

} // verus!
