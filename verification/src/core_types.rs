//! Core editor types shared by the buffer layer: its error taxonomy and
//! plain text coordinates.
//!
//! Error causes that arrive from outside (I/O, settings parsing) are
//! carried as their rendered text; the boundary layer renders them.

use vstd::prelude::*;

verus! {

/// Errors of the core buffer layer.
#[derive(Debug, Clone, PartialEq)]
pub enum CoreError {
    /// An I/O failure, rendered to text.
    IoError(String),
    /// An I/O failure already described by text.
    IoErrorString(String),
    /// Syntax parsing failed.
    ParseError(String),
    /// No buffer is registered under this id.
    BufferNotFound(String),
    /// No syntax support for this language.
    UnsupportedLanguage(String),
    /// Settings could not be loaded, rendered to text.
    SettingsError(String),
}

impl CoreError {
    /// The text `message` returns, as a sequence of characters.
    pub open spec fn message_spec(&self) -> Seq<char> {
        match self {
            CoreError::IoError(s) => "IO error: "@ + s@,
            CoreError::IoErrorString(s) => "IO error: "@ + s@,
            CoreError::ParseError(s) => "Tree-sitter parsing error: "@ + s@,
            CoreError::BufferNotFound(s) => "Buffer not found: "@ + s@,
            CoreError::UnsupportedLanguage(s) => "Language not supported: "@ + s@,
            CoreError::SettingsError(s) => "Settings error: "@ + s@,
        }
    }

    /// Human-readable text for the error.
    pub fn message(&self) -> (r: String)
        ensures
            r@ == self.message_spec(),
    {
        match self {
            CoreError::IoError(s) => "IO error: ".to_owned().concat(s.as_str()),
            CoreError::IoErrorString(s) => "IO error: ".to_owned().concat(s.as_str()),
            CoreError::ParseError(s) => "Tree-sitter parsing error: ".to_owned().concat(s.as_str()),
            CoreError::BufferNotFound(s) => "Buffer not found: ".to_owned().concat(s.as_str()),
            CoreError::UnsupportedLanguage(s) => "Language not supported: ".to_owned().concat(
                s.as_str(),
            ),
            CoreError::SettingsError(s) => "Settings error: ".to_owned().concat(s.as_str()),
        }
    }
}

/// Line ending styles of a stored buffer.
#[derive(Debug, Clone, Copy, PartialEq, Eq, Structural)]
pub enum LineEnding {
    /// Unix-style (LF).
    Unix,
    /// Windows-style (CRLF).
    Windows,
    /// Classic Mac-style (CR).
    Mac,
}

/// Text position in a buffer.
#[derive(Debug, Clone, Copy, PartialEq, Eq, Structural)]
pub struct Position {
    pub line: usize,
    pub column: usize,
}

/// Text range in a buffer.
#[derive(Debug, Clone, Copy, PartialEq, Eq, Structural)]
pub struct Range {
    pub start: Position,
    pub end: Position,
}

/// Text edit operation: a range replaced by new content.
#[derive(Debug, Clone, PartialEq)]
pub struct TextEdit {
    /// Range to replace.
    pub range: Range,
    /// New text content.
    pub new_text: String,
}

} // verus!
