//! Application-wide keys: quit, resize the split, toggle the help bar.

use crate::keys::{KeyCode, KeyEvent};
use crate::state::AppState;
use vstd::prelude::*;

verus! {

#[derive(Debug, Clone, Copy, PartialEq, Eq, Structural)]
pub enum AppKeyOutcome {
    Handled,
    Quit,
    Ignored,
}

/// `q` quits, `<` and `>` move the split by one step (stopping at its bounds), `?` shows
/// or hides the help bar; other keys are ignored.
pub open spec fn app_key_effect(old: AppState, key: KeyEvent) -> (AppKeyOutcome, AppState) {
    match key.code {
        KeyCode::Char('q') => (AppKeyOutcome::Quit, old),
        KeyCode::Char('<') => (
            AppKeyOutcome::Handled,
            AppState {
                split_ratio: if old.split_ratio >= crate::state::MIN_SPLIT_RATIO + crate::state::SPLIT_RATIO_STEP {
                    (old.split_ratio - crate::state::SPLIT_RATIO_STEP) as u16
                } else {
                    crate::state::MIN_SPLIT_RATIO
                },
                ..old
            },
        ),
        KeyCode::Char('>') => (
            AppKeyOutcome::Handled,
            AppState {
                split_ratio: if old.split_ratio <= crate::state::MAX_SPLIT_RATIO - crate::state::SPLIT_RATIO_STEP {
                    (old.split_ratio + crate::state::SPLIT_RATIO_STEP) as u16
                } else {
                    crate::state::MAX_SPLIT_RATIO
                },
                ..old
            },
        ),
        KeyCode::Char('?') => (AppKeyOutcome::Handled, AppState { show_help_bar: !old.show_help_bar, ..old }),
        _ => (AppKeyOutcome::Ignored, old),
    }
}

pub fn handle_app_key(state: &mut AppState, key: KeyEvent) -> (r: AppKeyOutcome)
    ensures
        old(state).wf() ==> final(state).wf(),
        (r, *final(state)) == app_key_effect(*old(state), key),
{
    match key.code {
        KeyCode::Char('q') => AppKeyOutcome::Quit,
        KeyCode::Char('<') => {
            state.adjust_split_left();
            AppKeyOutcome::Handled
        },
        KeyCode::Char('>') => {
            state.adjust_split_right();
            AppKeyOutcome::Handled
        },
        KeyCode::Char('?') => {
            state.toggle_help_bar();
            AppKeyOutcome::Handled
        },
        _ => AppKeyOutcome::Ignored,
    }
}

} // verus!
