//! What the views compute before drawing: human-readable byte counts and
//! the colour level of a usage bar.
pub mod format;
pub mod i18n;
pub mod levels;
pub mod settings;
