//! Page layout pieces: splitting a vertical flow of items into pages, and a
//! cache of parsed font files.

pub mod pagination;
pub mod font_manager;
