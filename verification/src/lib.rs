//! The core of a theme state controller for a desktop application: where its
//! files live, how the saved selection is read and written, what to do when
//! the theme, the theme registry or the user asks for a change, and what the
//! theme picker shows.

pub mod controller;
pub mod json;
pub mod paths;
pub mod picker;
pub mod state;
pub mod text;

pub use controller::{init, Controller, Effect, Event, SwitchTheme, SwitchThemeMode, ThemeMode};
pub use paths::{get_config_dir, get_data_dir, PathSet};
pub use picker::{MenuItem, PickerMenu, ThemeSwitcher};
pub use state::{load, PersistedState, ScrollbarShow};
