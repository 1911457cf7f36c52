//! The configuration of the viewer: the look of the screen and the keys.

use crate::keys::KeyCode;
use crate::text::{chars_of, string_of};
use vstd::prelude::*;

verus! {

/// The look of the screen.
pub struct UiConfig {
    /// The width of the signal list, in percent of the screen.
    pub signal_list_width: u16,
    /// The name of the color of the primary marker.
    pub marker_color_primary: String,
    /// The name of the color of the secondary marker.
    pub marker_color_secondary: String,
    /// The name of the color of a selection made by dragging.
    pub drag_color: String,
}

impl Default for UiConfig {
    fn default() -> (r: Self)
        ensures
            r.signal_list_width == 20,
            r.marker_color_primary@ == "yellow"@,
            r.marker_color_secondary@ == "white"@,
            r.drag_color@ == "#6496FF"@,
    {
        UiConfig {
            signal_list_width: 20,
            marker_color_primary: string_of(&chars_of("yellow")),
            marker_color_secondary: string_of(&chars_of("white")),
            drag_color: string_of(&chars_of("#6496FF")),
        }
    }
}

/// The keys of the viewer.
#[derive(Debug, Clone, Copy, PartialEq, Eq, Structural)]
pub struct KeybindingsConfig {
    pub enter_command_mode: KeyCode,
    pub up: KeyCode,
    pub down: KeyCode,
    pub left: KeyCode,
    pub right: KeyCode,
    pub zoom_in: KeyCode,
    pub zoom_out: KeyCode,
    pub zoom_full: KeyCode,
    pub delete_primary_marker: KeyCode,
    pub delete_secondary_marker: KeyCode,
    pub enter_normal_mode: KeyCode,
    pub execute_command: KeyCode,
}

/// The keys that the viewer has unless it is told otherwise.
pub open spec fn default_keybindings() -> KeybindingsConfig {
    KeybindingsConfig {
        enter_command_mode: KeyCode::Char(':'),
        up: KeyCode::Up,
        down: KeyCode::Down,
        left: KeyCode::Left,
        right: KeyCode::Right,
        zoom_in: KeyCode::Char('+'),
        zoom_out: KeyCode::Char('-'),
        zoom_full: KeyCode::Char('0'),
        delete_primary_marker: KeyCode::Delete,
        delete_secondary_marker: KeyCode::Backspace,
        enter_normal_mode: KeyCode::Esc,
        execute_command: KeyCode::Enter,
    }
}

impl Default for KeybindingsConfig {
    fn default() -> (r: Self)
        ensures
            r == default_keybindings(),
    {
        KeybindingsConfig {
            enter_command_mode: KeyCode::Char(':'),
            up: KeyCode::Up,
            down: KeyCode::Down,
            left: KeyCode::Left,
            right: KeyCode::Right,
            zoom_in: KeyCode::Char('+'),
            zoom_out: KeyCode::Char('-'),
            zoom_full: KeyCode::Char('0'),
            delete_primary_marker: KeyCode::Delete,
            delete_secondary_marker: KeyCode::Backspace,
            enter_normal_mode: KeyCode::Esc,
            execute_command: KeyCode::Enter,
        }
    }
}

/// The configuration of the viewer.
pub struct AppConfig {
    pub ui: UiConfig,
    pub keybindings: KeybindingsConfig,
    /// The file that the configuration was read from, if any.
    pub config_path: Option<String>,
}

impl Default for AppConfig {
    fn default() -> (r: Self)
        ensures
            r.keybindings == default_keybindings(),
            r.ui.signal_list_width == 20,
            r.config_path is None,
    {
        AppConfig {
            ui: UiConfig::default(),
            keybindings: KeybindingsConfig::default(),
            config_path: None,
        }
    }
}

/// Where the configuration comes from.
#[derive(Debug, PartialEq, Eq)]
pub enum ConfigSource {
    /// The file that was named in the place of the usual one.
    Override(String),
    /// The file that was named does not exist.
    MissingOverride(String),
    /// The usual file.
    Usual(String),
    /// No file: the configuration that is built in.
    BuiltIn,
}

/// What a `ConfigSource` holds, with its path as a sequence of
/// characters.
pub ghost enum ConfigSourceView {
    Override(Seq<char>),
    MissingOverride(Seq<char>),
    Usual(Seq<char>),
    BuiltIn,
}

impl View for ConfigSource {
    type V = ConfigSourceView;

    open spec fn view(&self) -> ConfigSourceView {
        match self {
            ConfigSource::Override(p) => ConfigSourceView::Override(p@),
            ConfigSource::MissingOverride(p) => ConfigSourceView::MissingOverride(p@),
            ConfigSource::Usual(p) => ConfigSourceView::Usual(p@),
            ConfigSource::BuiltIn => ConfigSourceView::BuiltIn,
        }
    }
}

/// Where the configuration comes from: a file that is named in the place
/// of the usual one decides, and it has to exist; else the usual file is
/// read if there is one; else the configuration is the one that is built
/// in.
pub open spec fn chosen_source(
    path_override: Option<String>,
    override_exists: bool,
    usual_path: Option<String>,
    usual_exists: bool,
) -> ConfigSourceView {
    match path_override {
        Some(path) => if override_exists {
            ConfigSourceView::Override(path@)
        } else {
            ConfigSourceView::MissingOverride(path@)
        },
        None => match usual_path {
            Some(path) => if usual_exists {
                ConfigSourceView::Usual(path@)
            } else {
                ConfigSourceView::BuiltIn
            },
            None => ConfigSourceView::BuiltIn,
        },
    }
}

/// Chooses where the configuration comes from.
pub fn config_source(
    path_override: Option<String>,
    override_exists: bool,
    usual_path: Option<String>,
    usual_exists: bool,
) -> (r: ConfigSource)
    ensures
        r@ == chosen_source(path_override, override_exists, usual_path, usual_exists),
{
    match path_override {
        Some(path) => {
            if override_exists {
                ConfigSource::Override(path)
            } else {
                ConfigSource::MissingOverride(path)
            }
        },
        None => match usual_path {
            Some(path) => {
                if usual_exists {
                    ConfigSource::Usual(path)
                } else {
                    ConfigSource::BuiltIn
                }
            },
            None => ConfigSource::BuiltIn,
        },
    }
}

} // verus!
