//! Tray icons and cue sounds.

use vstd::prelude::*;

use crate::error::{reports, CoreError};
use crate::text::{owned, push_str};

verus! {

/// Visual theme used to pick tray icons.
#[derive(Clone, Copy, Debug, PartialEq, Eq, Hash, Structural)]
pub enum UiTheme {
    Light,
    Dark,
}

impl Default for UiTheme {
    fn default() -> (t: UiTheme)
        ensures
            t == UiTheme::Light,
    {
        UiTheme::Light
    }
}

/// Tray icons and cue sounds used by the daemon; each path is a UTF-8 path.
#[derive(Clone, Debug, PartialEq, Eq)]
pub struct UiConfig {
    pub tray: bool,
    pub theme: UiTheme,
    pub idle_icon: String,
    pub recording_icon: String,
    pub processing_icon: Option<String>,
    pub idle_dark_icon: Option<String>,
    pub recording_dark_icon: Option<String>,
    pub processing_dark_icon: Option<String>,
    pub start_sound: String,
    pub stop_sound: String,
}

/// An optional path taken as a character sequence.
pub open spec fn opt_path(p: Option<String>) -> Option<Seq<char>> {
    match p {
        Some(s) => Some(s@),
        None => None,
    }
}

/// An optional path that is given but empty.
pub open spec fn empty_path(p: Option<String>) -> bool {
    p matches Some(s) && s@.len() == 0
}

/// The first rule that a UI configuration breaks, as its message.
pub open spec fn ui_problem(c: UiConfig) -> Option<Seq<char>> {
    if c.idle_icon@.len() == 0 || c.recording_icon@.len() == 0 {
        Some("ui icons must not be empty"@)
    } else if empty_path(c.processing_icon) {
        Some("ui processing_icon"@ + " must not be empty"@)
    } else if empty_path(c.idle_dark_icon) {
        Some("ui idle_dark_icon"@ + " must not be empty"@)
    } else if empty_path(c.recording_dark_icon) {
        Some("ui recording_dark_icon"@ + " must not be empty"@)
    } else if empty_path(c.processing_dark_icon) {
        Some("ui processing_dark_icon"@ + " must not be empty"@)
    } else if c.start_sound@.len() == 0 || c.stop_sound@.len() == 0 {
        Some("ui sound paths must not be empty"@)
    } else {
        None
    }
}

/// The path `a` when it is given, else `fallback`.
pub open spec fn first_given(a: Option<String>, fallback: String) -> Seq<char> {
    match a {
        Some(s) => s@,
        None => fallback@,
    }
}

/// The idle tray icon for the configured theme.
pub open spec fn idle_icon_of(c: UiConfig) -> Seq<char> {
    match c.theme {
        UiTheme::Light => c.idle_icon@,
        UiTheme::Dark => first_given(c.idle_dark_icon, c.idle_icon),
    }
}

/// The recording tray icon for the configured theme.
pub open spec fn recording_icon_of(c: UiConfig) -> Seq<char> {
    match c.theme {
        UiTheme::Light => c.recording_icon@,
        UiTheme::Dark => first_given(c.recording_dark_icon, c.recording_icon),
    }
}

/// The processing tray icon for the configured theme: the dark theme tries
/// the dark processing icon, then the dark idle icon, then the light
/// processing icon; both fall back to the idle icon.
pub open spec fn processing_icon_of(c: UiConfig) -> Seq<char> {
    match c.theme {
        UiTheme::Light => first_given(c.processing_icon, c.idle_icon),
        UiTheme::Dark => match c.processing_dark_icon {
            Some(p) => p@,
            None => match c.idle_dark_icon {
                Some(p) => p@,
                None => first_given(c.processing_icon, c.idle_icon),
            },
        },
    }
}

/// Reports `label must not be empty` when the optional path is given but
/// empty.
fn validate_optional_path(path: &Option<String>, label: &str) -> (r: Result<(), CoreError>)
    ensures
        reports(
            r,
            if empty_path(*path) {
                Some(label@ + " must not be empty"@)
            } else {
                None
            },
        ),
{
    if let Some(p) = path {
        if p.as_str().is_empty() {
            let mut m = owned(label);
            push_str(&mut m, " must not be empty");
            return Err(CoreError::InvalidConfig(m));
        }
    }
    Ok(())
}

/// The UI settings used when the configuration gives none.
pub open spec fn is_default_ui(c: UiConfig) -> bool {
    &&& c.tray
    &&& c.theme == UiTheme::Light
    &&& c.idle_icon@ == "/path/to/idle.png"@
    &&& c.recording_icon@ == "/path/to/recording.png"@
    &&& opt_path(c.processing_icon) == Some("/path/to/processing.png"@)
    &&& opt_path(c.idle_dark_icon) == Some("/path/to/idle_dark.png"@)
    &&& opt_path(c.recording_dark_icon) == Some("/path/to/recording_dark.png"@)
    &&& opt_path(c.processing_dark_icon) == Some("/path/to/processing_dark.png"@)
    &&& c.start_sound@ == "/path/to/start.wav"@
    &&& c.stop_sound@ == "/path/to/stop.wav"@
}

impl Default for UiConfig {
    fn default() -> (c: UiConfig)
        ensures
            is_default_ui(c),
    {
        UiConfig {
            tray: true,
            theme: UiTheme::Light,
            idle_icon: owned("/path/to/idle.png"),
            recording_icon: owned("/path/to/recording.png"),
            processing_icon: Some(owned("/path/to/processing.png")),
            idle_dark_icon: Some(owned("/path/to/idle_dark.png")),
            recording_dark_icon: Some(owned("/path/to/recording_dark.png")),
            processing_dark_icon: Some(owned("/path/to/processing_dark.png")),
            start_sound: owned("/path/to/start.wav"),
            stop_sound: owned("/path/to/stop.wav"),
        }
    }
}

impl UiConfig {
    /// Checks the UI rules in order and reports the first one broken.
    pub fn validate(&self) -> (r: Result<(), CoreError>)
        ensures
            reports(r, ui_problem(*self)),
    {
        if self.idle_icon.as_str().is_empty() || self.recording_icon.as_str().is_empty() {
            return Err(CoreError::InvalidConfig(owned("ui icons must not be empty")));
        }
        let r = validate_optional_path(&self.processing_icon, "ui processing_icon");
        if r.is_err() {
            return r;
        }
        let r = validate_optional_path(&self.idle_dark_icon, "ui idle_dark_icon");
        if r.is_err() {
            return r;
        }
        let r = validate_optional_path(&self.recording_dark_icon, "ui recording_dark_icon");
        if r.is_err() {
            return r;
        }
        let r = validate_optional_path(&self.processing_dark_icon, "ui processing_dark_icon");
        if r.is_err() {
            return r;
        }
        if self.start_sound.as_str().is_empty() || self.stop_sound.as_str().is_empty() {
            return Err(CoreError::InvalidConfig(owned("ui sound paths must not be empty")));
        }
        Ok(())
    }

    /// The idle tray icon: the dark override under the dark theme when it is
    /// given, else the idle icon.
    pub fn idle_tray_icon(&self) -> (p: &String)
        ensures
            p@ == idle_icon_of(*self),
    {
        match self.theme {
            UiTheme::Light => &self.idle_icon,
            UiTheme::Dark => match &self.idle_dark_icon {
                Some(p) => p,
                None => &self.idle_icon,
            },
        }
    }

    /// The recording tray icon: the dark override under the dark theme when
    /// it is given, else the recording icon.
    pub fn recording_tray_icon(&self) -> (p: &String)
        ensures
            p@ == recording_icon_of(*self),
    {
        match self.theme {
            UiTheme::Light => &self.recording_icon,
            UiTheme::Dark => match &self.recording_dark_icon {
                Some(p) => p,
                None => &self.recording_icon,
            },
        }
    }

    /// The processing tray icon, falling back as `processing_icon_of` says.
    pub fn processing_tray_icon(&self) -> (p: &String)
        ensures
            p@ == processing_icon_of(*self),
    {
        match self.theme {
            UiTheme::Light => match &self.processing_icon {
                Some(p) => p,
                None => &self.idle_icon,
            },
            UiTheme::Dark => match &self.processing_dark_icon {
                Some(p) => p,
                None => match &self.idle_dark_icon {
                    Some(p) => p,
                    None => match &self.processing_icon {
                        Some(p) => p,
                        None => &self.idle_icon,
                    },
                },
            },
        }
    }
}

/// With a valid UI configuration, every tray icon that the daemon shows is a
/// non-empty path.
pub proof fn law_valid_ui_icons_are_non_empty(c: UiConfig)
    requires
        ui_problem(c) is None,
    ensures
        idle_icon_of(c).len() > 0,
        recording_icon_of(c).len() > 0,
        processing_icon_of(c).len() > 0,
{
}

/// Under the light theme the configured light icons are used as they are.
pub proof fn law_light_theme_uses_light_icons(c: UiConfig)
    requires
        c.theme == UiTheme::Light,
    ensures
        idle_icon_of(c) == c.idle_icon@,
        recording_icon_of(c) == c.recording_icon@,
        processing_icon_of(c) == first_given(c.processing_icon, c.idle_icon),
{
}

/// A UI configuration passes exactly when the idle and recording icons and
/// both sounds are non-empty and no optional icon is given empty.
pub proof fn law_ui_config_rules(c: UiConfig)
    ensures
        ui_problem(c) is None <==> {
            &&& c.idle_icon@.len() > 0 && c.recording_icon@.len() > 0
            &&& c.start_sound@.len() > 0 && c.stop_sound@.len() > 0
            &&& !empty_path(c.processing_icon) && !empty_path(c.idle_dark_icon)
            &&& !empty_path(c.recording_dark_icon) && !empty_path(c.processing_dark_icon)
        },
{
}

} // verus!
