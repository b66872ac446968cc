//! The application: its state and what the terminal front end keeps beside it.

use crate::state::AppState;
use vstd::prelude::*;

verus! {

/// The last terminal image drawn: where, at what size, and the escape sequence sent.
#[derive(Debug, Clone)]
pub struct TerminalImageRenderCache {
    pub path: String,
    pub column: u16,
    pub row: u16,
    pub requested_columns: u16,
    pub requested_rows: u16,
    pub columns: u16,
    pub rows: u16,
    pub sequence: String,
    pub byte_len: usize,
    pub source_format: &'static str,
}

/// The running application.
#[derive(Debug, Clone)]
pub struct App {
    pub state: AppState,
    pub should_quit: bool,
    /// Where preferences are read from and saved to, once known.
    pub preferences_path: Option<String>,
    pub terminal_image_diagnostic_key: Option<String>,
    pub terminal_image_render_cache: Option<TerminalImageRenderCache>,
    pub terminal_image_visible_key: Option<String>,
}

impl App {
    /// A fresh application: its state is that of a client that has just started (see
    /// `AppState::is_initial`), it is not quitting, and it has no preferences path and no
    /// terminal image yet.
    pub open spec fn is_fresh(&self) -> bool {
        &&& self.state.is_initial()
        &&& !self.should_quit
        &&& self.preferences_path is None
        &&& self.terminal_image_diagnostic_key is None
        &&& self.terminal_image_render_cache is None
        &&& self.terminal_image_visible_key is None
    }

    pub fn new() -> (app: App)
        ensures
            app.is_fresh(),
    {
        App {
            state: AppState::new(),
            should_quit: false,
            preferences_path: None,
            terminal_image_diagnostic_key: None,
            terminal_image_render_cache: None,
            terminal_image_visible_key: None,
        }
    }

    /// Asks the event loop to stop; nothing else changes.
    pub fn quit(&mut self)
        ensures
            final(self).should_quit,
            final(self).state == old(self).state,
            final(self).preferences_path == old(self).preferences_path,
            final(self).terminal_image_diagnostic_key == old(self).terminal_image_diagnostic_key,
            final(self).terminal_image_render_cache == old(self).terminal_image_render_cache,
            final(self).terminal_image_visible_key == old(self).terminal_image_visible_key,
    {
        self.should_quit = true;
    }
}

impl Default for App {
    fn default() -> (app: App)
        ensures
            app.is_fresh(),
    {
        App::new()
    }
}

} // verus!
