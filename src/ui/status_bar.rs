//! What the status bar shows, and its texts.

use vstd::prelude::*;
use crate::editor::buffer::LineEnding;
use crate::state::editor_state::CursorPosition;
use crate::utils::{decimal, usize_to_string};

verus! {

/// Information to display in the status bar
#[derive(Debug, Clone)]
pub struct StatusBarInfo {
    /// Current cursor position
    pub cursor: CursorPosition,
    /// Whether there's an active selection
    pub has_selection: bool,
    /// Number of selected characters (if selection)
    pub selection_chars: Option<usize>,
    /// Number of selected lines (if selection)
    pub selection_lines: Option<usize>,
    /// Total line count
    pub line_count: usize,
    /// Total character count
    pub char_count: usize,
    /// Word count
    pub word_count: usize,
    /// File encoding
    pub encoding: String,
    /// Line ending style
    pub line_ending: LineEnding,
    /// Language/file type
    pub language: String,
    /// Whether document is modified
    pub is_modified: bool,
    /// Read-only status
    pub is_readonly: bool,
}

impl StatusBarInfo {
    /// Create a new status bar info: UTF-8 markdown, everything else zero
    pub fn new() -> (r: Self)
        ensures
            r.cursor == CursorPosition::start_spec(),
            !r.has_selection,
            r.selection_chars is None,
            r.selection_lines is None,
            r.line_count == 0,
            r.char_count == 0,
            r.word_count == 0,
            r.encoding@ == "UTF-8"@,
            r.line_ending == LineEnding::Lf,
            r.language@ == "Markdown"@,
            !r.is_modified,
            !r.is_readonly,
    {
        StatusBarInfo {
            cursor: CursorPosition::start(),
            has_selection: false,
            selection_chars: None,
            selection_lines: None,
            line_count: 0,
            char_count: 0,
            word_count: 0,
            encoding: String::from_str("UTF-8"),
            line_ending: LineEnding::Lf,
            language: String::from_str("Markdown"),
            is_modified: false,
            is_readonly: false,
        }
    }

    /// Format cursor position for display (1-indexed)
    pub fn cursor_display(&self) -> (r: String)
        requires
            self.cursor.line < usize::MAX,
            self.cursor.column < usize::MAX,
        ensures
            r@ == "Ln "@ + decimal((self.cursor.line + 1) as nat) + ", Col "@ + decimal(
                (self.cursor.column + 1) as nat,
            ),
    {
        self.cursor.to_string()
    }

    /// Format selection info for display
    pub fn selection_display(&self) -> (r: Option<String>)
        ensures
            !self.has_selection ==> r is None,
            self.has_selection ==> (r matches Some(t) && t@ == match (
                self.selection_chars,
                self.selection_lines,
            ) {
                (Some(c), Some(l)) => if l > 1 {
                    decimal(c as nat) + " chars, "@ + decimal(l as nat) + " lines selected"@
                } else {
                    decimal(c as nat) + " chars selected"@
                },
                (Some(c), None) => decimal(c as nat) + " chars selected"@,
                _ => "Selection"@,
            }),
    {
        if !self.has_selection {
            return None;
        }
        match (self.selection_chars, self.selection_lines) {
            (Some(chars), Some(lines)) => {
                if lines > 1 {
                    Some(
                        usize_to_string(chars).concat(" chars, ").concat(
                            usize_to_string(lines).as_str(),
                        ).concat(" lines selected"),
                    )
                } else {
                    Some(usize_to_string(chars).concat(" chars selected"))
                }
            },
            (Some(chars), None) => Some(usize_to_string(chars).concat(" chars selected")),
            _ => Some(String::from_str("Selection")),
        }
    }

    /// Format document statistics
    pub fn stats_display(&self) -> (r: String)
        ensures
            r@ == decimal(self.line_count as nat) + " lines, "@ + decimal(self.word_count as nat)
                + " words"@,
    {
        usize_to_string(self.line_count).concat(" lines, ").concat(
            usize_to_string(self.word_count).as_str(),
        ).concat(" words")
    }
}

impl Default for StatusBarInfo {
    fn default() -> (r: Self)
        ensures
            r.encoding@ == "UTF-8"@,
            r.language@ == "Markdown"@,
    {
        StatusBarInfo::new()
    }
}

} // verus!
