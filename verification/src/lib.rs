//! A line pager: a text is split into lines, a window of as many lines as the
//! terminal has rows is laid over them, and key presses move the window up and
//! down one line at a time.
//!
//! Everything here is a function from plain values to plain values. Reading the
//! file, asking the terminal for its size, reading keys and writing frames are
//! left to the program around this library.

pub mod args;
pub mod document;
pub mod laws;
pub mod pager;
pub mod session;
pub mod strings;
pub mod terminal;
pub mod viewport;

pub use args::path_argument;
pub use document::{lines_of, split_lines};
pub use pager::Pager;
pub use session::{command_for, finish, Command, Frame, Key};
pub use viewport::Viewport;
