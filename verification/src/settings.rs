//! User-facing overlay settings.

use vstd::prelude::*;

verus! {

/// File name, relative to the working directory, under which the settings are stored.
pub const SETTINGS_FILE_NAME: &'static str = ".quelana_settings.json";

/// The switches a user can flip in the settings tab.
#[derive(Clone, Copy, Debug, PartialEq, Eq, Structural)]
pub struct AppSettings {
    pub auto_answer_mode: bool,
    pub keep_on_top: bool,
    pub hide_during_screen_share: bool,
}

/// The settings a fresh installation starts with: questions are only sent on
/// request, and the overlay stays on top and out of screen shares.
pub open spec fn default_settings() -> AppSettings {
    AppSettings { auto_answer_mode: false, keep_on_top: true, hide_during_screen_share: true }
}

impl Default for AppSettings {
    fn default() -> (s: Self)
        ensures
            s == default_settings(),
    {
        AppSettings { auto_answer_mode: false, keep_on_top: true, hide_during_screen_share: true }
    }
}

/// The settings to run with, given what could be read back from the
/// settings file (`None` when it is missing or does not parse).
pub fn settings_or_default(stored: Option<AppSettings>) -> (s: AppSettings)
    ensures
        s == match stored {
            Some(t) => t,
            None => default_settings(),
        },
{
    match stored {
        Some(t) => t,
        None => AppSettings::default(),
    }
}

/// Out of the box auto-answer is off, and the overlay stays on top and is
/// hidden from screen shares.
pub proof fn lemma_default_values()
    ensures
        !default_settings().auto_answer_mode,
        default_settings().keep_on_top,
        default_settings().hide_during_screen_share,
{
}

} // verus!
