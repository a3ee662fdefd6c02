//! Search option and result types.

use vstd::prelude::*;
use std::ops::Range;

verus! {

/// Search direction
#[derive(Debug, Clone, Copy, PartialEq, Eq, Structural)]
pub enum SearchDirection {
    Forward,
    Backward,
}

impl Default for SearchDirection {
    fn default() -> (r: Self)
        ensures
            r == SearchDirection::Forward,
    {
        SearchDirection::Forward
    }
}

/// Options for search operations
#[derive(Debug, Clone, Copy, PartialEq, Eq, Structural)]
pub struct FindOptions {
    /// Case-sensitive matching
    pub case_sensitive: bool,
    /// Match whole words only
    pub whole_word: bool,
    /// Use regular expressions
    pub use_regex: bool,
    /// Wrap around at document boundaries
    pub wrap_around: bool,
}

impl FindOptions {
    /// Default options: case-insensitive plain text, wrapping around.
    pub open spec fn default_spec() -> FindOptions {
        FindOptions { case_sensitive: false, whole_word: false, use_regex: false, wrap_around: true }
    }
}

impl Default for FindOptions {
    fn default() -> (r: Self)
        ensures
            r == FindOptions::default_spec(),
    {
        FindOptions { case_sensitive: false, whole_word: false, use_regex: false, wrap_around: true }
    }
}

/// A single search result
#[derive(Debug, Clone)]
pub struct FindResult {
    /// Start character offset in the document
    pub start: usize,
    /// End character offset (exclusive)
    pub end: usize,
    /// Line number (0-indexed)
    pub line: usize,
    /// Column number (0-indexed)
    pub column: usize,
    /// The matched text
    pub matched_text: String,
}

impl FindResult {
    /// Create a new find result
    pub fn new(start: usize, end: usize, line: usize, column: usize, matched_text: String) -> (r: Self)
        ensures
            r == (FindResult { start, end, line, column, matched_text }),
    {
        FindResult { start, end, line, column, matched_text }
    }

    /// Get the range as a Rust Range
    pub fn range(&self) -> (r: Range<usize>)
        ensures
            r.start == self.start,
            r.end == self.end,
    {
        self.start..self.end
    }

    /// Get the length of the match
    pub fn len(&self) -> (r: usize)
        requires
            self.start <= self.end,
        ensures
            r == self.end - self.start,
    {
        self.end - self.start
    }

    /// Check if the match is empty
    pub fn is_empty(&self) -> (r: bool)
        ensures
            r == (self.start == self.end),
    {
        self.start == self.end
    }
}

} // verus!
