//! Keys handled whatever panel is focused.

use crate::keys::{KeyCode, KeyEvent};
use crate::state::{AppState, FocusedPanel};
use vstd::prelude::*;

verus! {

#[derive(Debug, Clone, Copy, PartialEq, Eq, Structural)]
pub enum GlobalKeyOutcome {
    Handled,
    Continue,
}

/// Escape, or `c` with Control.
pub open spec fn is_cancel_key(key: KeyEvent) -> bool {
    key.code == KeyCode::Esc || (key.code == KeyCode::Char('c') && key.modifiers.control)
}

/// Whether a global key takes `key` (see `global_key_done`).
pub open spec fn global_key_consumes(s: AppState, key: KeyEvent) -> bool {
    (key.code == KeyCode::Tab && s.delete_confirmation is None) || (is_cancel_key(key) && s.focused_panel
        != FocusedPanel::Input && (s.editing_message_id is Some || s.replying_to_message_id is Some))
}

/// What a global key does: Tab cycles the focus unless a delete confirmation is open; a
/// cancel key outside the input ends an edit or reply (clearing the input); any other key
/// changes nothing and goes on to the focused panel.
pub open spec fn global_key_done(old: AppState, new: AppState, key: KeyEvent, r: GlobalKeyOutcome) -> bool {
    if key.code == KeyCode::Tab && old.delete_confirmation is None {
        r == GlobalKeyOutcome::Handled && new == (AppState { focused_panel: AppState::next_panel(old.focused_panel), ..old })
    } else if is_cancel_key(key) && old.focused_panel != FocusedPanel::Input
        && (old.editing_message_id is Some || old.replying_to_message_id is Some) {
        &&& r == GlobalKeyOutcome::Handled
        &&& new.input_buffer@.len() == 0
        &&& new == (AppState {
            editing_message_id: None,
            replying_to_message_id: None,
            input_buffer: new.input_buffer,
            input_cursor: 0,
            ..old
        })
    } else {
        r == GlobalKeyOutcome::Continue && new == old
    }
}

/// Tab cycles the focus unless a delete confirmation is open; a cancel key outside the
/// input ends an edit or reply; anything else goes on to the focused panel.
pub fn handle_global_key(state: &mut AppState, key: KeyEvent) -> (r: GlobalKeyOutcome)
    ensures
        old(state).wf() ==> final(state).wf(),
        global_key_done(*old(state), *final(state), key, r),
{
    if key.code == KeyCode::Tab && state.delete_confirmation.is_none() {
        state.focus_next_panel();
        return GlobalKeyOutcome::Handled;
    }
    let is_cancel = key.code == KeyCode::Esc || (key.code == KeyCode::Char('c')
        && key.modifiers.control);
    if is_cancel && state.focused_panel != FocusedPanel::Input && (
    state.editing_message_id.is_some() || state.replying_to_message_id.is_some()) {
        state.cancel_compose_mode();
        return GlobalKeyOutcome::Handled;
    }
    GlobalKeyOutcome::Continue
}

} // verus!
