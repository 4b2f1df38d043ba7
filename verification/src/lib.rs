//! The logic of a small, write-only Instagram terminal client: the requests it
//! sends, how it reads the JSON replies, and how the screens react to keys and
//! to finished background work.  Transport, terminal drawing and file access
//! live in the program around this library.

pub mod text;
pub mod json;
pub mod config;
pub mod api;
pub mod tui;
pub mod render;
pub mod properties;
