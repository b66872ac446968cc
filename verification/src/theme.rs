//! Colours of the interface.

use vstd::prelude::*;

verus! {

/// A terminal colour; `Reset` is the terminal's own.
#[derive(Debug, Clone, Copy, PartialEq, Eq, Structural)]
pub enum Color {
    Reset,
    Black,
    Red,
    Green,
    Yellow,
    Blue,
    Magenta,
    Cyan,
    Gray,
    DarkGray,
    LightRed,
    LightGreen,
    LightYellow,
    LightBlue,
    LightMagenta,
    LightCyan,
    White,
}

/// The colour of each part of the interface.
#[derive(Debug, Clone, Copy, PartialEq, Eq, Structural)]
pub struct Theme {
    pub background: Color,
    pub foreground: Color,
    pub selection: Color,
    pub selection_foreground: Color,
    pub unread_chat: Color,
    pub selected_item: Color,
    pub own_message: Color,
    pub other_message: Color,
    pub error: Color,
    pub border: Color,
    pub border_focused: Color,
}

/// Evergreen: the terminal's own background and text, green selection with white text,
/// yellow unread chats, light green for the selected item, own messages and the focused
/// border, red errors and dark grey borders.
pub open spec fn evergreen_spec() -> Theme {
    Theme {
        background: Color::Reset,
        foreground: Color::Reset,
        selection: Color::Green,
        selection_foreground: Color::White,
        unread_chat: Color::Yellow,
        selected_item: Color::LightGreen,
        own_message: Color::LightGreen,
        other_message: Color::Reset,
        error: Color::Red,
        border: Color::DarkGray,
        border_focused: Color::LightGreen,
    }
}

impl Theme {
    /// The evergreen theme (see `evergreen_spec`).
    pub fn evergreen() -> (t: Theme)
        ensures
            t == evergreen_spec(),
    {
        Theme {
            background: Color::Reset,
            foreground: Color::Reset,
            selection: Color::Green,
            selection_foreground: Color::White,
            unread_chat: Color::Yellow,
            selected_item: Color::LightGreen,
            own_message: Color::LightGreen,
            other_message: Color::Reset,
            error: Color::Red,
            border: Color::DarkGray,
            border_focused: Color::LightGreen,
        }
    }
}

impl Default for Theme {
    /// The evergreen theme.
    fn default() -> (t: Theme)
        ensures
            t == evergreen_spec(),
    {
        Theme::evergreen()
    }
}

} // verus!
