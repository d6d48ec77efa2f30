//! Chapter timelines for audiobook-style media.
//!
//! A [`ChapterList`] is an ordered timeline of named intervals. It is built
//! from the measured tracks of a file set or from what a prober reports of
//! an already chaptered file, rendered to the text that a multiplexer
//! reads, and exchanged with people through an editable document. Every
//! function states its result over the mathematical view of its arguments.
//!
//! The crate reads no file and starts no process. Its callers measure,
//! probe and run; the modules [`process`], [`naming`] and [`tags`] tell
//! them with what, and judge what came of it.

pub mod chapters;
pub mod decimal;
pub mod errors;
pub mod interchange;
pub mod json;
pub mod naming;
pub mod probe;
pub mod process;
pub mod tags;
pub mod text;
pub mod toml_model;

pub use crate::chapters::{Chapter, ChapterList};
pub use crate::errors::Error;
