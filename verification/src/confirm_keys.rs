//! Keys of the delete confirmation prompt.

use crate::keys::{KeyCode, KeyEvent, KeyModifiers};
use vstd::prelude::*;

verus! {

#[derive(Debug, Clone, Copy, PartialEq, Eq, Structural)]
pub enum ConfirmKeyOutcome {
    Confirm,
    Cancel,
    Ignored,
}

/// `y` without modifiers, or `Y` alone or with Shift, confirms; Control-`c`, `n`, `N`
/// and Escape cancel; anything else is ignored.
pub open spec fn confirm_key_spec(key: KeyEvent) -> ConfirmKeyOutcome {
    match key.code {
        KeyCode::Char(c) => if c == 'y' && key.modifiers.is_none_spec() {
            ConfirmKeyOutcome::Confirm
        } else if c == 'Y' && (key.modifiers.is_none_spec() || key.modifiers == (KeyModifiers {
            shift: true,
            ..KeyModifiers::none_spec()
        })) {
            ConfirmKeyOutcome::Confirm
        } else if c == 'c' && key.modifiers.control {
            ConfirmKeyOutcome::Cancel
        } else if c == 'n' || c == 'N' {
            ConfirmKeyOutcome::Cancel
        } else {
            ConfirmKeyOutcome::Ignored
        },
        KeyCode::Esc => ConfirmKeyOutcome::Cancel,
        _ => ConfirmKeyOutcome::Ignored,
    }
}

pub fn handle_confirm_key(key: KeyEvent) -> (r: ConfirmKeyOutcome)
    ensures
        r == confirm_key_spec(key),
{
    match key.code {
        KeyCode::Char(c) => {
            if c == 'y' && key.modifiers.is_none() {
                ConfirmKeyOutcome::Confirm
            } else if c == 'Y' && (key.modifiers.is_none() || key.modifiers.is_shift_only()) {
                ConfirmKeyOutcome::Confirm
            } else if c == 'c' && key.modifiers.control {
                ConfirmKeyOutcome::Cancel
            } else if c == 'n' || c == 'N' {
                ConfirmKeyOutcome::Cancel
            } else {
                ConfirmKeyOutcome::Ignored
            }
        },
        KeyCode::Esc => ConfirmKeyOutcome::Cancel,
        _ => ConfirmKeyOutcome::Ignored,
    }
}

} // verus!
