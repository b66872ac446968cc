//! Saved UI preferences (help bar, split position) and where their file lives.
//!
//! The split position is kept in whole percent of the width, like `AppState::split_ratio`.

use crate::pathstr::{file_stem, file_stem_spec, with_file_name, with_file_name_spec};
use crate::state::{AppState, DEFAULT_SPLIT_RATIO, MAX_SPLIT_RATIO, MIN_SPLIT_RATIO};
use crate::text::concat;
use vstd::prelude::*;

verus! {

/// The stem used for the state file's name: the configuration file's stem when it has a
/// non-empty one, else `dumbgram`.
pub open spec fn state_stem_spec(config_path: Seq<char>) -> Seq<char> {
    match file_stem_spec(config_path) {
        Some(stem) => if stem.len() > 0 {
            stem
        } else {
            "dumbgram"@
        },
        None => "dumbgram"@,
    }
}

/// `<stem>.state.toml` next to the configuration file.
pub fn state_path_for_config(config_path: &str) -> (r: String)
    ensures
        r@ == with_file_name_spec(config_path@, state_stem_spec(config_path@) + ".state.toml"@),
{
    let stem = match file_stem(config_path) {
        Some(s) => if s.as_str().is_empty() {
            String::from_str("dumbgram")
        } else {
            s
        },
        None => String::from_str("dumbgram"),
    };
    let name = concat(stem.as_str(), ".state.toml");
    with_file_name(config_path, name.as_str())
}

/// The help bar is shown unless the saved state says otherwise.
pub fn default_show_help_bar() -> (r: bool)
    ensures
        r,
{
    true
}


/// Preferences of the UI.
#[derive(Debug, Clone, Copy, PartialEq, Eq, Structural)]
pub struct UiPreferences {
    pub show_help_bar: bool,
    /// Width of the chat list, in percent.
    pub split_ratio: u16,
}

/// Everything saved between runs.
#[derive(Debug, Clone, Copy, PartialEq, Eq, Structural)]
pub struct AppPreferences {
    pub ui: UiPreferences,
}

/// The split kept inside its bounds.
pub open spec fn clamp_split_spec(ratio: u16) -> u16 {
    if ratio < MIN_SPLIT_RATIO {
        MIN_SPLIT_RATIO
    } else if ratio > MAX_SPLIT_RATIO {
        MAX_SPLIT_RATIO
    } else {
        ratio
    }
}

pub fn clamp_split_ratio(ratio: u16) -> (r: u16)
    ensures
        r == clamp_split_spec(ratio),
{
    if ratio < MIN_SPLIT_RATIO {
        MIN_SPLIT_RATIO
    } else if ratio > MAX_SPLIT_RATIO {
        MAX_SPLIT_RATIO
    } else {
        ratio
    }
}

/// The default split.
pub fn default_split_ratio() -> (r: u16)
    ensures
        r == DEFAULT_SPLIT_RATIO,
{
    DEFAULT_SPLIT_RATIO
}

impl Default for UiPreferences {
    fn default() -> (p: UiPreferences)
        ensures
            p.show_help_bar,
            p.split_ratio == DEFAULT_SPLIT_RATIO,
    {
        UiPreferences { show_help_bar: default_show_help_bar(), split_ratio: default_split_ratio() }
    }
}

impl Default for AppPreferences {
    fn default() -> (p: AppPreferences)
        ensures
            p.ui.show_help_bar,
            p.ui.split_ratio == DEFAULT_SPLIT_RATIO,
    {
        AppPreferences { ui: UiPreferences::default() }
    }
}

impl AppPreferences {
    pub open spec fn from_state_spec(state: AppState) -> AppPreferences {
        AppPreferences {
            ui: UiPreferences { show_help_bar: state.show_help_bar, split_ratio: clamp_split_spec(state.split_ratio) },
        }
    }

    /// Preferences as just read from a file, with the split brought inside its bounds.
    pub fn clamped(self) -> (p: AppPreferences)
        ensures
            p == (AppPreferences {
                ui: UiPreferences { split_ratio: clamp_split_spec(self.ui.split_ratio), ..self.ui },
            }),
    {
        AppPreferences {
            ui: UiPreferences { show_help_bar: self.ui.show_help_bar, split_ratio: clamp_split_ratio(self.ui.split_ratio) },
        }
    }

    /// Shows the help bar as saved and moves the split to the saved position (kept inside
    /// its bounds).
    pub fn apply_to_state(&self, state: &mut AppState)
        ensures
            *final(state) == (AppState {
                show_help_bar: self.ui.show_help_bar,
                split_ratio: clamp_split_spec(self.ui.split_ratio),
                ..*old(state)
            }),
    {
        state.show_help_bar = self.ui.show_help_bar;
        state.split_ratio = clamp_split_ratio(self.ui.split_ratio);
    }

    /// The preferences that `state` shows.
    pub fn from_state(state: &AppState) -> (p: AppPreferences)
        ensures
            p == Self::from_state_spec(*state),
    {
        AppPreferences {
            ui: UiPreferences { show_help_bar: state.show_help_bar, split_ratio: clamp_split_ratio(state.split_ratio) },
        }
    }
}

/// Whether `state` shows other preferences than `before`, so they need saving.
pub fn preferences_changed(before: &AppPreferences, state: &AppState) -> (r: bool)
    ensures
        r == (*before != AppPreferences::from_state_spec(*state)),
{
    let now = AppPreferences::from_state(state);
    !(before.ui.show_help_bar == now.ui.show_help_bar && before.ui.split_ratio == now.ui.split_ratio)
}

/// Saving and loading preferences restores what was shown: applying the preferences taken
/// from a well-formed state to any other state shows the same help bar and split.
pub proof fn lemma_state_preferences_restore(shown: AppState, other: AppState)
    requires
        shown.wf(),
    ensures
        ({
            let p = AppPreferences::from_state_spec(shown);
            let restored = AppState { show_help_bar: p.ui.show_help_bar, split_ratio: clamp_split_spec(p.ui.split_ratio), ..other };
            &&& restored.show_help_bar == shown.show_help_bar
            &&& restored.split_ratio == shown.split_ratio
        }),
{
}

/// Preferences read back from a state they were applied to are the applied ones with the
/// split inside its bounds; so nothing needs saving right after loading.
pub proof fn lemma_preferences_read_back(p: AppPreferences, other: AppState)
    ensures
        AppPreferences::from_state_spec(
            AppState { show_help_bar: p.ui.show_help_bar, split_ratio: clamp_split_spec(p.ui.split_ratio), ..other },
        ) == (AppPreferences { ui: UiPreferences { split_ratio: clamp_split_spec(p.ui.split_ratio), ..p.ui } }),
{
}

} // verus!
