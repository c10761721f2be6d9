pub mod state;
pub mod events;
pub mod color_picker;
pub mod editor;
pub mod keys;
pub mod loader;
pub mod screen;
pub mod search;

pub use editor::{App, AppView, InputMode, PreviewAttribute};
pub use state::{ColorEditor, PreviewElement, normalize_theme_name};
