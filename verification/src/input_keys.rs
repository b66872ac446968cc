//! Keys of the message input.

use crate::keys::{KeyCode, KeyEvent};
use crate::state::{AppState, FocusedPanel};
use vstd::prelude::*;

verus! {

#[derive(Debug, Clone, Copy, PartialEq, Eq, Structural)]
pub enum InputKeyOutcome {
    Handled,
    Submit,
    Ignored,
}

/// What a key does to the input.
pub enum InputEdit {
    Cancel,
    CursorStart,
    CursorLeft,
    CursorRight,
    CursorEnd,
    DeleteChar,
    DeleteAfterCursor,
    DeleteBeforeCursor,
    DeletePreviousWord,
    Insert(char),
    Backspace,
    Submit,
    Ignore,
}

/// Escape cancels; Control with `a b c d e f k u w` are the Emacs-style edits; other
/// characters without Control are typed; Backspace, Delete, arrows, Home and End edit and
/// move; Enter submits.
pub open spec fn input_edit_for(key: KeyEvent) -> InputEdit {
    match key.code {
        KeyCode::Esc => InputEdit::Cancel,
        KeyCode::Char(c) => if key.modifiers.control {
            if c == 'a' {
                InputEdit::CursorStart
            } else if c == 'b' {
                InputEdit::CursorLeft
            } else if c == 'c' {
                InputEdit::Cancel
            } else if c == 'd' {
                InputEdit::DeleteChar
            } else if c == 'e' {
                InputEdit::CursorEnd
            } else if c == 'f' {
                InputEdit::CursorRight
            } else if c == 'k' {
                InputEdit::DeleteAfterCursor
            } else if c == 'u' {
                InputEdit::DeleteBeforeCursor
            } else if c == 'w' {
                InputEdit::DeletePreviousWord
            } else {
                InputEdit::Ignore
            }
        } else {
            InputEdit::Insert(c)
        },
        KeyCode::Backspace => InputEdit::Backspace,
        KeyCode::Delete => InputEdit::DeleteChar,
        KeyCode::Left => InputEdit::CursorLeft,
        KeyCode::Right => InputEdit::CursorRight,
        KeyCode::Home => InputEdit::CursorStart,
        KeyCode::End => InputEdit::CursorEnd,
        KeyCode::Enter => InputEdit::Submit,
        _ => InputEdit::Ignore,
    }
}

/// Only the input and the cursor changed, to `buf` and `cursor`.
pub open spec fn input_now(old: AppState, new: AppState, buf: Seq<char>, cursor: int) -> bool {
    &&& new.input_buffer@ == buf
    &&& new.input_cursor == cursor
    &&& new == (AppState { input_buffer: new.input_buffer, input_cursor: new.input_cursor, ..old })
}

/// The state after `edit`.
pub open spec fn input_edit_applied(old: AppState, new: AppState, edit: InputEdit) -> bool {
    let buf = old.input_buffer@;
    let cur = old.cursor_spec();
    match edit {
        InputEdit::Cancel => if old.editing_message_id is Some || old.replying_to_message_id is Some {
            new.input_buffer@.len() == 0 && new == (AppState {
                editing_message_id: None,
                replying_to_message_id: None,
                input_buffer: new.input_buffer,
                input_cursor: 0,
                focused_panel: FocusedPanel::Messages,
                ..old
            })
        } else {
            new == (AppState { focused_panel: FocusedPanel::Messages, ..old })
        },
        InputEdit::CursorStart => new == (AppState { input_cursor: 0, ..old }),
        InputEdit::CursorLeft => new == (AppState {
            input_cursor: if cur > 0 {
                (cur - 1) as usize
            } else {
                0
            },
            ..old
        }),
        InputEdit::CursorRight => new == (AppState {
            input_cursor: if cur < buf.len() {
                (cur + 1) as usize
            } else {
                buf.len() as usize
            },
            ..old
        }),
        InputEdit::CursorEnd => new == (AppState { input_cursor: buf.len() as usize, ..old }),
        InputEdit::DeleteChar => input_now(
            old,
            new,
            if cur < buf.len() {
                buf.remove(cur)
            } else {
                buf
            },
            cur,
        ),
        InputEdit::DeleteAfterCursor => input_now(old, new, buf.take(cur), cur),
        InputEdit::DeleteBeforeCursor => input_now(old, new, buf.skip(cur), 0),
        InputEdit::DeletePreviousWord => input_now(
            old,
            new,
            buf.take(AppState::word_start(buf, cur)) + buf.skip(cur),
            AppState::word_start(buf, cur),
        ),
        InputEdit::Insert(c) => input_now(old, new, buf.insert(cur, c), cur + 1),
        InputEdit::Backspace => if cur > 0 {
            input_now(old, new, buf.remove(cur - 1), cur - 1)
        } else {
            input_now(old, new, buf, 0)
        },
        InputEdit::Submit => new == old,
        InputEdit::Ignore => new == old,
    }
}

pub open spec fn input_outcome_for(edit: InputEdit) -> InputKeyOutcome {
    match edit {
        InputEdit::Submit => InputKeyOutcome::Submit,
        InputEdit::Ignore => InputKeyOutcome::Ignored,
        _ => InputKeyOutcome::Handled,
    }
}

/// What editing keys do to the input, for a cursor inside it: Delete (and Ctrl-D) removes
/// the character at the cursor and keeps the cursor; Backspace removes the one before it
/// and moves back; a typed character goes in at the cursor, which moves past it; Ctrl-K
/// keeps what is before the cursor and Ctrl-U what is after it; Left, Right, Home and End
/// move the cursor one step or to either end without changing the text.
pub proof fn lemma_input_key_edits(old: AppState, new: AppState, key: KeyEvent)
    requires
        input_edit_applied(old, new, input_edit_for(key)),
        old.input_cursor <= old.input_buffer@.len(),
        old.input_buffer@.len() <= usize::MAX,
    ensures
        ({
            let buf = old.input_buffer@;
            let c = old.input_cursor as int;
            let n = buf.len() as int;
            &&& (key.code == KeyCode::Delete || (key.code == KeyCode::Char('d') && key.modifiers.control)) ==> {
                &&& new.input_buffer@ == if c < n { buf.subrange(0, c) + buf.subrange(c + 1, n) } else { buf }
                &&& new.input_cursor == c
            }
            &&& key.code == KeyCode::Backspace ==> {
                &&& c > 0 ==> new.input_buffer@ == buf.subrange(0, c - 1) + buf.subrange(c, n) && new.input_cursor == c - 1
                &&& c == 0 ==> new.input_buffer@ == buf && new.input_cursor == 0
            }
            &&& (key.code matches KeyCode::Char(ch) && !key.modifiers.control) ==> {
                &&& new.input_buffer@ == buf.subrange(0, c) + seq![key.code->Char_0] + buf.subrange(c, n)
                &&& new.input_cursor == c + 1
            }
            &&& (key.code == KeyCode::Char('k') && key.modifiers.control) ==> new.input_buffer@ == buf.subrange(0, c)
                && new.input_cursor == c
            &&& (key.code == KeyCode::Char('u') && key.modifiers.control) ==> new.input_buffer@ == buf.subrange(c, n)
                && new.input_cursor == 0
            &&& key.code == KeyCode::Left ==> new.input_buffer@ == buf && new.input_cursor == if c > 0 { c - 1 } else { 0 }
            &&& key.code == KeyCode::Right ==> new.input_buffer@ == buf && new.input_cursor == if c < n { c + 1 } else { n }
            &&& key.code == KeyCode::Home ==> new.input_buffer@ == buf && new.input_cursor == 0
            &&& key.code == KeyCode::End ==> new.input_buffer@ == buf && new.input_cursor == n
        }),
{
    let buf = old.input_buffer@;
    let c = old.input_cursor as int;
    let n = buf.len() as int;
    assert(old.cursor_spec() == c);
    if c < n {
        assert(buf.remove(c) =~= buf.subrange(0, c) + buf.subrange(c + 1, n));
    }
    if c > 0 {
        assert(buf.remove(c - 1) =~= buf.subrange(0, c - 1) + buf.subrange(c, n));
    }
    if let KeyCode::Char(ch) = key.code {
        assert(buf.insert(c, ch) =~= buf.subrange(0, c) + seq![ch] + buf.subrange(c, n));
    }
    assert(buf.take(c) =~= buf.subrange(0, c));
    assert(buf.skip(c) =~= buf.subrange(c, n));
}

pub fn handle_input_key(state: &mut AppState, key: KeyEvent) -> (r: InputKeyOutcome)
    ensures
        old(state).wf() ==> final(state).wf(),
        r == input_outcome_for(input_edit_for(key)),
        input_edit_applied(*old(state), *final(state), input_edit_for(key)),
        old(state).wf() && key.code == KeyCode::Delete ==> {
            let buf = old(state).input_buffer@;
            let c = old(state).input_cursor as int;
            &&& final(state).input_buffer@ == if c < buf.len() {
                buf.subrange(0, c) + buf.subrange(c + 1, buf.len() as int)
            } else {
                buf
            }
            &&& final(state).input_cursor == c
        },
        old(state).wf() && key.code == KeyCode::Backspace && old(state).input_cursor > 0 ==> {
            let buf = old(state).input_buffer@;
            let c = old(state).input_cursor as int;
            &&& final(state).input_buffer@ == buf.subrange(0, c - 1) + buf.subrange(c, buf.len() as int)
            &&& final(state).input_cursor == c - 1
        },
{
    let _shown_len: usize = state.input_buffer.len();
    let r = apply_input_key(state, key);
    proof {
        if old(state).wf() {
            lemma_input_key_edits(*old(state), *state, key);
        }
    }
    r
}

fn apply_input_key(state: &mut AppState, key: KeyEvent) -> (r: InputKeyOutcome)
    ensures
        old(state).wf() ==> final(state).wf(),
        r == input_outcome_for(input_edit_for(key)),
        input_edit_applied(*old(state), *final(state), input_edit_for(key)),
{
    match key.code {
        KeyCode::Esc => {
            state.cancel_input_mode();
            InputKeyOutcome::Handled
        },
        KeyCode::Char(c) => {
            if key.modifiers.control {
                if c == 'a' {
                    state.move_input_cursor_to_start();
                    InputKeyOutcome::Handled
                } else if c == 'b' {
                    state.move_input_cursor_left();
                    InputKeyOutcome::Handled
                } else if c == 'c' {
                    state.cancel_input_mode();
                    InputKeyOutcome::Handled
                } else if c == 'd' {
                    state.delete_input_char();
                    InputKeyOutcome::Handled
                } else if c == 'e' {
                    state.move_input_cursor_to_end();
                    InputKeyOutcome::Handled
                } else if c == 'f' {
                    state.move_input_cursor_right();
                    InputKeyOutcome::Handled
                } else if c == 'k' {
                    state.delete_input_after_cursor();
                    InputKeyOutcome::Handled
                } else if c == 'u' {
                    state.delete_input_before_cursor();
                    InputKeyOutcome::Handled
                } else if c == 'w' {
                    state.delete_input_previous_word();
                    InputKeyOutcome::Handled
                } else {
                    InputKeyOutcome::Ignored
                }
            } else {
                state.insert_input_char(c);
                InputKeyOutcome::Handled
            }
        },
        KeyCode::Backspace => {
            state.backspace_input_char();
            InputKeyOutcome::Handled
        },
        KeyCode::Delete => {
            state.delete_input_char();
            InputKeyOutcome::Handled
        },
        KeyCode::Left => {
            state.move_input_cursor_left();
            InputKeyOutcome::Handled
        },
        KeyCode::Right => {
            state.move_input_cursor_right();
            InputKeyOutcome::Handled
        },
        KeyCode::Home => {
            state.move_input_cursor_to_start();
            InputKeyOutcome::Handled
        },
        KeyCode::End => {
            state.move_input_cursor_to_end();
            InputKeyOutcome::Handled
        },
        KeyCode::Enter => InputKeyOutcome::Submit,
        _ => InputKeyOutcome::Ignored,
    }
}

} // verus!
