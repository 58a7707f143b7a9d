//! Themeable rendering of interactive command-line prompts.
//!
//! A [`Theme`] turns a prompt event (a question, a default value, a list
//! item, an error, a committed answer) into text. A [`TermThemeRenderer`]
//! hands that text out as frames for a terminal and keeps count of the lines
//! it is responsible for, so that a prompt can erase exactly what it drew and
//! draw itself again in place.
//!
//! The crate never touches a terminal. Every render method returns what is to
//! be written; the caller writes it and then commits the frame, so a failed
//! write leaves the line counts as they were.

pub mod colored;
pub mod colorful;
pub mod plain;
pub mod renderer;
pub mod style;
pub mod text;
pub mod theme;

pub use colored::ColoredTheme;
pub use colorful::ColorfulTheme;
pub use plain::SelectionStyle;
pub use renderer::{count_wrapped_items, Frame, TermThemeRenderer, WriteStrategy};
pub use text::{count_line_breaks, key_choices_text};
pub use theme::{get_default_theme, CustomPromptCharacterTheme, FormatError, SimpleTheme, Theme};
