//! The editing core of a terminal text editor.
//!
//! A [`Document`] is a list of text lines with a cached table of their
//! lengths. A [`Cursor`] lives in screen coordinates inside a [`Viewport`]
//! that scrolls over the document. A [`Session`] owns one of each, takes one
//! input event at a time and keeps the three consistent.
//!
//! Columns and lengths are counted in characters: one character is taken to
//! fill one screen column. Wide and combining characters are not supported.

pub mod error;
pub mod text;
pub mod document;
pub mod cursor;
pub mod input;
pub mod session;
pub mod window;

pub use crate::error::EditError;
pub use crate::window::{str_vec_to_span, title, visible_lines};
pub use crate::session::{Action, Session};
pub use crate::input::{bool_toggle, classify, copy_char, Held, InputEvent, Key};
pub use crate::document::Document;
pub use crate::cursor::{cursor_end, cursor_home, cursor_move, Cursor, Direction, Viewport};
