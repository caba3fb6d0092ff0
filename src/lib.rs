//! A small logging facility: text goes to the console, to an attached file,
//! or both, optionally preceded by a local timestamp line.
//!
//! The library holds the logger's state and every decision it makes: which
//! sinks a piece of text goes to and in what order, how a file is to be
//! opened, how the timestamp line is formed, and whether a file's text holds a
//! given string. Performing the resulting console and file operations is left
//! to the caller.
use vstd::prelude::*;

pub mod logger;
pub mod stamp;
pub mod text;

pub use logger::{Emit, Logger, OpenFlags, OpenMode, Sink};
pub use stamp::{stamp_line, timestamp_line, Stamp};
pub use text::{contains_text, read_contains};
