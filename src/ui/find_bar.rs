//! What the find bar shows.

use vstd::prelude::*;

verus! {

/// Find bar state, borrowed from the search state for display
#[derive(Debug, Clone, Copy)]
pub struct FindBarState<'a> {
    pub is_open: bool,
    pub show_replace: bool,
    pub query: &'a str,
    pub replace_text: &'a str,
    pub case_sensitive: bool,
    pub whole_word: bool,
    pub use_regex: bool,
    pub result_count: usize,
    pub current_result: Option<usize>,
}

} // verus!
