//! The logic behind a small desktop application's backend: the greeting it
//! answers, the theme that a requested name selects, and the plugins that are
//! registered when it starts.

mod greeting;
mod plugins;
mod theme;

pub use greeting::{greet, greeting_text};
pub use plugins::{bootstrap_plugin_seq, bootstrap_plugins, Plugin};
pub use theme::{theme_for_name, theme_from_name, ThemeChoice};
