//! Two task lists (pending and completed) with selection cursors, a
//! line-oriented text format for them, and an immediate-mode renderer that
//! lays the focused list out as rows of text.
pub mod codec;
pub mod nav;
pub mod store;
pub mod ui;
