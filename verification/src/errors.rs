//! The ways in which an operation of this crate fails.

use vstd::prelude::*;

verus! {

/// A failure. Every fallible function hands the first failure to its caller
/// unchanged; nothing is retried and nothing partial is returned.
#[derive(Debug, Clone, PartialEq, Eq)]
pub enum Error {
    /// A file or a process could not be read, written or started.
    IoError,
    /// A file of a set has no name to show.
    NoFilesFountError,
    /// A naming scheme lacks the token that the payload names.
    NoFormatSpecifierError(String),
    /// The multiplexer ran and reported the exit code in the payload.
    FfmpegError(i32),
    /// No multiplexer was found at the path in the payload.
    FfmpegNotFoundError(String),
    /// The prober was not found.
    FfprobeNotFoundError,
    /// What the prober printed holds no well-formed chapter list.
    ChapterReadError,
    /// The interchange document could not be written, for the reason in
    /// the payload.
    TomlSerializationError(String),
    /// The interchange text is no document of the expected shape, for the
    /// reason in the payload.
    TomlDeserializationError(String),
}

/// The mathematical value of an [`Error`].
pub enum ErrorView {
    IoError,
    NoFilesFountError,
    NoFormatSpecifierError(Seq<char>),
    FfmpegError(int),
    FfmpegNotFoundError(Seq<char>),
    FfprobeNotFoundError,
    ChapterReadError,
    TomlSerializationError(Seq<char>),
    TomlDeserializationError(Seq<char>),
}

impl View for Error {
    type V = ErrorView;

    open spec fn view(&self) -> ErrorView {
        match *self {
            Error::IoError => ErrorView::IoError,
            Error::NoFilesFountError => ErrorView::NoFilesFountError,
            Error::NoFormatSpecifierError(token) => ErrorView::NoFormatSpecifierError(token@),
            Error::FfmpegError(code) => ErrorView::FfmpegError(code as int),
            Error::FfmpegNotFoundError(path) => ErrorView::FfmpegNotFoundError(path@),
            Error::FfprobeNotFoundError => ErrorView::FfprobeNotFoundError,
            Error::ChapterReadError => ErrorView::ChapterReadError,
            Error::TomlSerializationError(reason) => ErrorView::TomlSerializationError(reason@),
            Error::TomlDeserializationError(reason) => ErrorView::TomlDeserializationError(
                reason@,
            ),
        }
    }
}

} // verus!
