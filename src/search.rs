//! Search state for the find/replace bar: query, options, the results a
//! search produced and navigation among them.

pub mod find;

pub use find::{FindOptions, FindResult, SearchDirection};

use vstd::prelude::*;
use crate::utils::{decimal, usize_to_string};

verus! {

/// Search state for the UI
#[derive(Debug, Clone)]
pub struct SearchState {
    /// Current search query
    pub query: String,
    /// Replacement text
    pub replace_text: String,
    /// Search options
    pub options: FindOptions,
    /// Current search results
    pub results: Vec<FindResult>,
    /// Current result index (0-indexed)
    pub current_index: Option<usize>,
    /// Whether find dialog is open
    pub find_open: bool,
    /// Whether replace dialog is open
    pub replace_open: bool,
    /// Error message if search failed
    pub error: Option<String>,
}

/// Index after `i` among `len` results, wrapping to the first.
pub open spec fn next_index(current: Option<usize>, len: int) -> int {
    match current {
        Some(i) => (i + 1) % len,
        None => 0,
    }
}

/// Index before `i` among `len` results, wrapping to the last.
pub open spec fn prev_index(current: Option<usize>, len: int) -> int {
    match current {
        Some(i) => if i > 0 { i - 1 } else { len - 1 },
        None => len - 1,
    }
}

impl SearchState {
    /// Create a new search state: empty texts, default options, no
    /// results, dialogs closed
    pub fn new() -> (r: Self)
        ensures
            r.query@.len() == 0,
            r.replace_text@.len() == 0,
            r.options == FindOptions::default_spec(),
            r.results@.len() == 0,
            r.current_index is None,
            !r.find_open,
            !r.replace_open,
            r.error is None,
    {
        SearchState {
            query: String::new(),
            replace_text: String::new(),
            options: FindOptions::default(),
            results: Vec::new(),
            current_index: None,
            find_open: false,
            replace_open: false,
            error: None,
        }
    }

    /// Set the search query; a different query drops the results and error
    pub fn set_query(&mut self, query: String)
        ensures
            final(self).query@ == query@,
            old(self).query@ != query@ ==> final(self).results@.len() == 0
                && final(self).current_index is None && final(self).error is None,
            old(self).query@ == query@ ==> final(self).results == old(self).results
                && final(self).current_index == old(self).current_index
                && final(self).error == old(self).error,
            final(self).options == old(self).options,
            final(self).replace_text == old(self).replace_text,
    {
        if self.query != query {
            self.query = query;
            self.results.clear();
            self.current_index = None;
            self.error = None;
        }
    }

    /// Set the replacement text
    pub fn set_replace_text(&mut self, text: String)
        ensures
            final(self).replace_text == text,
            final(self).query == old(self).query,
            final(self).results == old(self).results,
            final(self).current_index == old(self).current_index,
    {
        self.replace_text = text;
    }

    /// Toggle case sensitivity; results are dropped
    pub fn toggle_case_sensitive(&mut self)
        ensures
            final(self).options == (FindOptions {
                case_sensitive: !old(self).options.case_sensitive,
                ..old(self).options
            }),
            final(self).results@.len() == 0,
            final(self).current_index is None,
            final(self).query == old(self).query,
    {
        self.options.case_sensitive = !self.options.case_sensitive;
        self.results.clear();
        self.current_index = None;
    }

    /// Toggle whole word matching; results are dropped
    pub fn toggle_whole_word(&mut self)
        ensures
            final(self).options == (FindOptions {
                whole_word: !old(self).options.whole_word,
                ..old(self).options
            }),
            final(self).results@.len() == 0,
            final(self).current_index is None,
            final(self).query == old(self).query,
    {
        self.options.whole_word = !self.options.whole_word;
        self.results.clear();
        self.current_index = None;
    }

    /// Toggle regex mode; results are dropped
    pub fn toggle_regex(&mut self)
        ensures
            final(self).options == (FindOptions {
                use_regex: !old(self).options.use_regex,
                ..old(self).options
            }),
            final(self).results@.len() == 0,
            final(self).current_index is None,
            final(self).query == old(self).query,
    {
        self.options.use_regex = !self.options.use_regex;
        self.results.clear();
        self.current_index = None;
    }

    /// Replace the results; the first becomes current when there is one
    pub fn update_results(&mut self, results: Vec<FindResult>)
        ensures
            final(self).results@ == results@,
            final(self).current_index == (if results@.len() > 0 {
                Some(0usize)
            } else {
                None
            }),
            final(self).query == old(self).query,
            final(self).options == old(self).options,
    {
        self.results = results;
        if !self.results.is_empty() {
            self.current_index = Some(0);
        } else {
            self.current_index = None;
        }
    }

    /// Move to next result, wrapping after the last
    pub fn next_result(&mut self) -> (r: Option<&FindResult>)
        ensures
            old(self).results@.len() == 0 ==> r is None && final(self).current_index
                == old(self).current_index,
            old(self).results@.len() > 0 ==> ({
                let k = next_index(old(self).current_index, old(self).results@.len() as int);
                &&& final(self).current_index == Some(k as usize)
                &&& r == Some(&old(self).results@[k])
            }),
            final(self).results == old(self).results,
            final(self).query == old(self).query,
    {
        let len = self.results.len();
        if len == 0 {
            return None;
        }
        let next = match self.current_index {
            Some(i) => {
                let k = i % len;
                proof {
                    crate::state::editor_state::lemma_wrap_next(i as int, len as int);
                }
                if k + 1 == len {
                    0
                } else {
                    k + 1
                }
            },
            None => 0,
        };
        self.current_index = Some(next);
        Some(&self.results[next])
    }

    /// Move to previous result, wrapping before the first
    pub fn prev_result(&mut self) -> (r: Option<&FindResult>)
        ensures
            old(self).results@.len() == 0 ==> r is None && final(self).current_index
                == old(self).current_index,
            old(self).results@.len() > 0 ==> ({
                let k = prev_index(old(self).current_index, old(self).results@.len() as int);
                &&& final(self).current_index == Some(k as usize)
                &&& r == (if k < old(self).results@.len() {
                    Some(&old(self).results@[k])
                } else {
                    None
                })
            }),
            final(self).results == old(self).results,
            final(self).query == old(self).query,
    {
        let len = self.results.len();
        if len == 0 {
            return None;
        }
        let prev = match self.current_index {
            Some(i) => {
                if i > 0 {
                    i - 1
                } else {
                    len - 1
                }
            },
            None => len - 1,
        };
        self.current_index = Some(prev);
        if prev < len {
            Some(&self.results[prev])
        } else {
            None
        }
    }

    /// Get current result
    pub fn current_result(&self) -> (r: Option<&FindResult>)
        ensures
            r == (match self.current_index {
                Some(i) => if i < self.results@.len() {
                    Some(&self.results@[i as int])
                } else {
                    None
                },
                None => None,
            }),
    {
        match self.current_index {
            Some(i) => {
                if i < self.results.len() {
                    Some(&self.results[i])
                } else {
                    None
                }
            },
            None => None,
        }
    }

    /// Result count text: empty without a query, "No results" when none
    /// matched, else "current of total" (the current one 1-indexed, 0 when
    /// none is current)
    pub fn result_count_display(&self) -> (r: String)
        requires
            self.current_index matches Some(i) ==> i < usize::MAX,
        ensures
            self.results@.len() == 0 && self.query@.len() == 0 ==> r@ == Seq::<char>::empty(),
            self.results@.len() == 0 && self.query@.len() > 0 ==> r@ == "No results"@,
            self.results@.len() > 0 ==> r@ == decimal(
                match self.current_index {
                    Some(i) => (i + 1) as nat,
                    None => 0,
                },
            ) + " of "@ + decimal(self.results@.len()),
    {
        if self.results.is_empty() {
            if self.query.as_str().unicode_len() == 0 {
                String::new()
            } else {
                String::from_str("No results")
            }
        } else {
            let current = match self.current_index {
                Some(i) => i + 1,
                None => 0,
            };
            let a = usize_to_string(current);
            let b = usize_to_string(self.results.len());
            a.concat(" of ").concat(b.as_str())
        }
    }

    /// Clear the texts, results and error (options and dialogs stay)
    pub fn clear(&mut self)
        ensures
            final(self).query@.len() == 0,
            final(self).replace_text@.len() == 0,
            final(self).results@.len() == 0,
            final(self).current_index is None,
            final(self).error is None,
            final(self).options == old(self).options,
            final(self).find_open == old(self).find_open,
            final(self).replace_open == old(self).replace_open,
    {
        self.query = String::new();
        self.replace_text = String::new();
        self.results.clear();
        self.current_index = None;
        self.error = None;
    }

    /// Open find dialog
    pub fn open_find(&mut self)
        ensures
            final(self).find_open,
            !final(self).replace_open,
            final(self).query == old(self).query,
            final(self).results == old(self).results,
    {
        self.find_open = true;
        self.replace_open = false;
    }

    /// Open find and replace dialog
    pub fn open_replace(&mut self)
        ensures
            final(self).find_open,
            final(self).replace_open,
            final(self).query == old(self).query,
            final(self).results == old(self).results,
    {
        self.find_open = true;
        self.replace_open = true;
    }

    /// Close dialogs
    pub fn close(&mut self)
        ensures
            !final(self).find_open,
            !final(self).replace_open,
            final(self).query == old(self).query,
            final(self).results == old(self).results,
    {
        self.find_open = false;
        self.replace_open = false;
    }

    /// Check if any dialog is open
    pub fn is_open(&self) -> (r: bool)
        ensures
            r == (self.find_open || self.replace_open),
    {
        self.find_open || self.replace_open
    }
}

impl Default for SearchState {
    fn default() -> (r: Self)
        ensures
            r.query@.len() == 0,
            r.results@.len() == 0,
            r.current_index is None,
    {
        SearchState::new()
    }
}

} // verus!
