//! Error types of the configuration, editor and clipboard layers.

use vstd::prelude::*;

verus! {

/// Configuration errors
#[derive(Debug, Clone)]
pub enum ConfigError {
    /// Could not load configuration
    LoadError(String),
    /// Could not save configuration
    SaveError(String),
    /// Invalid configuration format
    ParseError(String),
    /// Missing required configuration value
    MissingValue { key: String },
    /// Invalid configuration value
    InvalidValue { key: String, reason: String },
    /// Could not determine config directory
    DirectoryError,
}

/// Editor operation errors
#[derive(Debug, Clone)]
pub enum EditorError {
    /// Invalid cursor position
    InvalidCursorPosition { line: usize, column: usize },
    /// Invalid selection range
    InvalidSelection { start: usize, end: usize },
    /// Nothing to undo
    NothingToUndo,
    /// Nothing to redo
    NothingToRedo,
    /// Document not found
    DocumentNotFound { id: String },
    /// Buffer operation failed
    BufferError(String),
}

/// Clipboard related errors
#[derive(Debug, Clone)]
pub enum ClipboardError {
    /// Could not access clipboard
    AccessDenied,
    /// Clipboard is empty
    Empty,
    /// Clipboard content is not text
    NotText,
    /// Error getting clipboard content
    ReadError(String),
    /// Error setting clipboard content
    WriteError(String),
}

impl ClipboardError {
    /// Create a user-friendly error message
    pub fn user_message(&self) -> (r: String)
        ensures
            r@ == (match self {
                ClipboardError::AccessDenied =>
                    "Could not access the clipboard. Another application may be using it."@,
                ClipboardError::Empty => "The clipboard is empty."@,
                ClipboardError::NotText => "The clipboard does not contain text."@,
                ClipboardError::ReadError(e) => "Could not read from clipboard: "@ + e@,
                ClipboardError::WriteError(e) => "Could not write to clipboard: "@ + e@,
            }),
    {
        match self {
            ClipboardError::AccessDenied => String::from_str(
                "Could not access the clipboard. Another application may be using it.",
            ),
            ClipboardError::Empty => String::from_str("The clipboard is empty."),
            ClipboardError::NotText => String::from_str("The clipboard does not contain text."),
            ClipboardError::ReadError(e) => String::from_str("Could not read from clipboard: ").concat(
                e.as_str(),
            ),
            ClipboardError::WriteError(e) => String::from_str("Could not write to clipboard: ").concat(
                e.as_str(),
            ),
        }
    }
}

} // verus!
