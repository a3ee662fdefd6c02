//! File browser entries.

use vstd::prelude::*;
use crate::utils::path::{extension_of, file_name_of, path_extension, path_file_name};
use crate::utils::text::{contains_text, has_substring, lower_of, lowercase};

verus! {

/// File or directory entry in the file tree
#[derive(Debug, Clone)]
pub struct FileEntry {
    /// Full filesystem path
    pub path: String,
    /// Display name (filename only)
    pub name: String,
    /// Whether this is a directory
    pub is_directory: bool,
    /// Nesting depth from root (0-based)
    pub depth: usize,
    /// Index of parent entry in flat list (None for root entries)
    pub parent_index: Option<usize>,
    /// Last modification time, in seconds since the Unix epoch
    pub modified_time: Option<u64>,
    /// File size in bytes (0 for directories)
    pub size_bytes: u64,
}

impl FileEntry {
    /// Create a new file entry from a path and what the file system says
    /// of it; the name is the path's file name (the whole path when it has
    /// none), and a directory has size 0
    pub fn new(
        path: String,
        depth: usize,
        parent_index: Option<usize>,
        is_directory: bool,
        modified_time: Option<u64>,
        size_bytes: u64,
    ) -> (r: Self)
        ensures
            r.path@ == path@,
            r.name@ == (match file_name_of(path@) {
                Some(n) => n,
                None => path@,
            }),
            r.is_directory == is_directory,
            r.depth == depth,
            r.parent_index == parent_index,
            r.modified_time == modified_time,
            r.size_bytes == (if is_directory { 0 } else { size_bytes }),
    {
        let name = match path_file_name(path.as_str()) {
            Some(n) => n,
            None => path.clone(),
        };
        FileEntry {
            path,
            name,
            is_directory,
            depth,
            parent_index,
            modified_time,
            size_bytes: if is_directory {
                0
            } else {
                size_bytes
            },
        }
    }

    /// Get file extension (if any)
    pub fn extension(&self) -> (r: Option<String>)
        ensures
            r matches Some(t) ==> extension_of(self.path@) == Some(t@),
            r is None ==> extension_of(self.path@) is None,
    {
        path_extension(self.path.as_str())
    }

    /// Check if this is a markdown file (`md` or `markdown`)
    pub fn is_markdown(&self) -> (r: bool)
        ensures
            r == (extension_of(self.path@) matches Some(e) && (e == "md"@ || e == "markdown"@)),
    {
        match path_extension(self.path.as_str()) {
            Some(e) => {
                let md = String::from_str("md");
                let markdown = String::from_str("markdown");
                e == md || e == markdown
            },
            None => false,
        }
    }

    /// Check if this is a hidden file (name starts with a dot)
    pub fn is_hidden(&self) -> (r: bool)
        ensures
            r == (self.name@.len() > 0 && self.name@[0] == '.'),
    {
        let n = self.name.as_str().unicode_len();
        n > 0 && self.name.as_str().get_char(0) == '.'
    }
}


/// Some entry of `s` reads `p`.
pub open spec fn has_path(s: Seq<String>, p: Seq<char>) -> bool {
    exists|i: int| 0 <= i < s.len() && (#[trigger] s[i])@ == p
}

/// `s` without the entries that read `p`.
pub open spec fn without_path(s: Seq<String>, p: Seq<char>) -> Seq<String>
    decreases s.len(),
{
    if s.len() == 0 {
        s
    } else if s.last()@ == p {
        without_path(s.drop_last(), p)
    } else {
        without_path(s.drop_last(), p).push(s.last())
    }
}

/// Indices of the entries whose lower-cased name holds `filter`.
pub open spec fn matching(e: Seq<FileEntry>, filter: Seq<char>) -> Seq<int>
    decreases e.len(),
{
    if e.len() == 0 {
        Seq::empty()
    } else if has_substring(lower_of(e.last().name@), filter) {
        matching(e.drop_last(), filter).push(e.len() - 1)
    } else {
        matching(e.drop_last(), filter)
    }
}

/// Indices of the entries shown from `k` on, `skip` being the depth of a
/// collapsed folder whose contents are being passed over.
pub open spec fn shown_from(e: Seq<FileEntry>, expanded: Seq<String>, k: int, skip: Option<usize>) -> Seq<int>
    decreases e.len() - k,
{
    if k < 0 || k >= e.len() {
        Seq::empty()
    } else if skip matches Some(d) && e[k].depth > d {
        shown_from(e, expanded, k + 1, skip)
    } else {
        let next = if e[k].is_directory && !has_path(expanded, e[k].path@) {
            Some(e[k].depth)
        } else {
            None
        };
        seq![k] + shown_from(e, expanded, k + 1, next)
    }
}

/// The indices of `s` that are below `n`, in order.
pub open spec fn below(s: Seq<usize>, n: int) -> Seq<int>
    decreases s.len(),
{
    if s.len() == 0 {
        Seq::empty()
    } else if s.last() < n {
        below(s.drop_last(), n).push(s.last() as int)
    } else {
        below(s.drop_last(), n)
    }
}

/// First position of `x` in `s`, or -1.
pub open spec fn position_in(s: Seq<int>, x: int) -> int
    decreases s.len(),
{
    if s.len() == 0 {
        -1
    } else if position_in(s.drop_last(), x) >= 0 {
        position_in(s.drop_last(), x)
    } else if s.last() == x {
        s.len() - 1
    } else {
        -1
    }
}

proof fn lemma_position_in_range(s: Seq<int>, x: int)
    ensures
        -1 <= position_in(s, x) < s.len(),
        position_in(s, x) >= 0 ==> s[position_in(s, x)] == x,
    decreases s.len(),
{
    if s.len() > 0 {
        lemma_position_in_range(s.drop_last(), x);
    }
}

/// First position of `x` in `v`.
fn position_of(v: &Vec<usize>, x: usize) -> (r: Option<usize>)
    ensures
        r matches Some(p) ==> p == position_in(v@.map_values(|i: usize| i as int), x as int),
        r is None ==> position_in(v@.map_values(|i: usize| i as int), x as int) == -1,
{
    let ghost m = v@.map_values(|i: usize| i as int);
    let mut i: usize = 0;
    while i < v.len()
        invariant
            i <= v@.len(),
            m == v@.map_values(|i: usize| i as int),
            position_in(m.subrange(0, i as int), x as int) == -1,
        decreases v@.len() - i,
    {
        assert(m.subrange(0, i + 1).drop_last() =~= m.subrange(0, i as int));
        if v[i] == x {
            proof {
                lemma_position_prefix(m, i as int, x as int);
            }
            return Some(i);
        }
        i = i + 1;
    }
    assert(m.subrange(0, v@.len() as int) =~= m);
    None
}

/// A first occurrence in a prefix is the first occurrence in the whole.
proof fn lemma_position_prefix(m: Seq<int>, i: int, x: int)
    requires
        0 <= i < m.len(),
        m[i] == x,
        position_in(m.subrange(0, i), x) == -1,
    ensures
        position_in(m, x) == i,
    decreases m.len(),
{
    assert(m.subrange(0, i + 1).drop_last() =~= m.subrange(0, i));
    if i + 1 < m.len() {
        assert(m.drop_last().subrange(0, i) =~= m.subrange(0, i));
        lemma_position_prefix(m.drop_last(), i, x);
    } else {
        assert(m.subrange(0, i + 1) =~= m);
    }
}

/// Sidebar state
#[derive(Debug, Clone)]
pub struct SidebarState {
    /// Current working directory (root of file tree)
    pub root: Option<String>,
    /// Flat list of file entries
    pub entries: Vec<FileEntry>,
    /// Expanded directory paths, each once
    pub expanded_folders: Vec<String>,
    /// Currently selected/highlighted file path
    pub selected_path: Option<String>,
    /// Search/filter input text
    pub filter_text: String,
    /// Indices of entries matching current filter
    pub filtered_indices: Vec<usize>,
    /// Whether sidebar is visible
    pub visible: bool,
    /// Sidebar width in pixels
    pub width: u32,
    /// Whether a directory scan is in progress
    pub is_scanning: bool,
    /// Error message from last operation (if any)
    pub error_message: Option<String>,
    /// Focused entry index for keyboard navigation
    pub focused_index: Option<usize>,
    /// Whether the sidebar has keyboard focus
    pub has_focus: bool,
}

impl SidebarState {
    /// Indices of the entries the sidebar shows: the filter matches while
    /// filtering, else every entry outside collapsed folders.
    pub open spec fn shown(&self) -> Seq<int> {
        if self.filter_text@.len() > 0 {
            below(self.filtered_indices@, self.entries@.len() as int)
        } else {
            shown_from(self.entries@, self.expanded_folders@, 0, None)
        }
    }

    /// Create a new sidebar state
    pub fn new() -> (r: Self)
        ensures
            r.root is None,
            r.entries@.len() == 0,
            r.expanded_folders@.len() == 0,
            r.selected_path is None,
            r.filter_text@.len() == 0,
            r.filtered_indices@.len() == 0,
            r.visible,
            r.width == 250,
            !r.is_scanning,
            r.error_message is None,
            r.focused_index is None,
            !r.has_focus,
    {
        SidebarState {
            root: None,
            entries: Vec::new(),
            expanded_folders: Vec::new(),
            selected_path: None,
            filter_text: String::new(),
            filtered_indices: Vec::new(),
            visible: true,
            width: 250,
            is_scanning: false,
            error_message: None,
            focused_index: None,
            has_focus: false,
        }
    }

    /// Set the root directory: it is the one expanded folder, and the
    /// filter and error are cleared
    pub fn set_root(&mut self, path: String)
        ensures
            final(self).root == Some(path),
            final(self).expanded_folders@.len() == 1,
            final(self).expanded_folders@[0]@ == path@,
            final(self).filter_text@.len() == 0,
            final(self).filtered_indices@.len() == 0,
            final(self).error_message is None,
            final(self).entries == old(self).entries,
    {
        let copy = path.clone();
        self.root = Some(path);
        self.expanded_folders = Vec::new();
        self.expanded_folders.push(copy);
        self.clear_filter();
        self.error_message = None;
    }

    /// Clear the root and all entries
    pub fn clear(&mut self)
        ensures
            final(self).root is None,
            final(self).entries@.len() == 0,
            final(self).expanded_folders@.len() == 0,
            final(self).selected_path is None,
            final(self).filter_text@.len() == 0,
            final(self).filtered_indices@.len() == 0,
            final(self).error_message is None,
    {
        self.root = None;
        self.entries.clear();
        self.expanded_folders.clear();
        self.selected_path = None;
        self.clear_filter();
        self.error_message = None;
    }

    /// Set entries from a directory scan and filter them again
    pub fn set_entries(&mut self, entries: Vec<FileEntry>)
        ensures
            final(self).entries == entries,
            !final(self).is_scanning,
            final(self).filter_text == old(self).filter_text,
            final(self).filter_text@.len() == 0 ==> final(self).filtered_indices@.len() == 0,
            final(self).filter_text@.len() > 0 ==> final(self).filtered_indices@.map_values(
                |i: usize| i as int,
            ) == matching(entries@, lower_of(old(self).filter_text@)),
    {
        self.entries = entries;
        self.is_scanning = false;
        self.apply_filter();
    }

    /// Check if a folder is expanded
    pub fn is_expanded(&self, path: &String) -> (r: bool)
        ensures
            r == has_path(self.expanded_folders@, path@),
    {
        let mut i: usize = 0;
        while i < self.expanded_folders.len()
            invariant
                i <= self.expanded_folders@.len(),
                forall|j: int| 0 <= j < i ==> (#[trigger] self.expanded_folders@[j])@ != path@,
            decreases self.expanded_folders@.len() - i,
        {
            if self.expanded_folders[i] == *path {
                return true;
            }
            i = i + 1;
        }
        false
    }

    /// Remove every expanded entry that reads `path`.
    fn remove_expanded(&mut self, path: &String)
        ensures
            final(self).expanded_folders@ == without_path(old(self).expanded_folders@, path@),
            final(self).entries == old(self).entries,
            final(self).filter_text == old(self).filter_text,
            final(self).filtered_indices == old(self).filtered_indices,
    {
        let ghost s = self.expanded_folders@;
        let n = self.expanded_folders.len();
        let mut kept: Vec<String> = Vec::new();
        let mut k: usize = 0;
        while self.expanded_folders.len() > 0
            invariant
                k + self.expanded_folders@.len() == s.len(),
                s.len() == n,
                s == old(self).expanded_folders@,
                self.expanded_folders@ == s.subrange(k as int, s.len() as int),
                kept@ == without_path(s.subrange(0, k as int), path@),
                self.entries == old(self).entries,
                self.filter_text == old(self).filter_text,
                self.filtered_indices == old(self).filtered_indices,
            decreases self.expanded_folders@.len(),
        {
            let p = self.expanded_folders.remove(0);
            assert(s.subrange(0, k + 1).drop_last() =~= s.subrange(0, k as int));
            assert(s.subrange(k + 1, s.len() as int) =~= s.subrange(k as int, s.len() as int).subrange(
                1,
                s.len() - k,
            ));
            if p != *path {
                kept.push(p);
            }
            k = k + 1;
        }
        assert(s.subrange(0, s.len() as int) =~= s);
        self.expanded_folders = kept;
    }

    /// Toggle folder expansion
    pub fn toggle_folder(&mut self, path: &String)
        ensures
            has_path(old(self).expanded_folders@, path@) ==> final(self).expanded_folders@
                == without_path(old(self).expanded_folders@, path@),
            !has_path(old(self).expanded_folders@, path@) ==> final(self).expanded_folders@.len()
                == old(self).expanded_folders@.len() + 1 && final(self).expanded_folders@.drop_last()
                == old(self).expanded_folders@ && final(self).expanded_folders@.last()@ == path@,
            final(self).entries == old(self).entries,
    {
        if self.is_expanded(path) {
            self.remove_expanded(path);
        } else {
            self.expanded_folders.push(path.clone());
            assert(self.expanded_folders@.drop_last() =~= old(self).expanded_folders@);
        }
    }

    /// Expand a folder (no change when it is expanded already)
    pub fn expand_folder(&mut self, path: &String)
        ensures
            has_path(old(self).expanded_folders@, path@) ==> final(self).expanded_folders
                == old(self).expanded_folders,
            !has_path(old(self).expanded_folders@, path@) ==> final(self).expanded_folders@.drop_last()
                == old(self).expanded_folders@ && final(self).expanded_folders@.len()
                == old(self).expanded_folders@.len() + 1 && final(self).expanded_folders@.last()@
                == path@,
            final(self).entries == old(self).entries,
    {
        if !self.is_expanded(path) {
            self.expanded_folders.push(path.clone());
            assert(self.expanded_folders@.drop_last() =~= old(self).expanded_folders@);
        }
    }

    /// Collapse a folder
    pub fn collapse_folder(&mut self, path: &String)
        ensures
            final(self).expanded_folders@ == without_path(old(self).expanded_folders@, path@),
            final(self).entries == old(self).entries,
    {
        self.remove_expanded(path);
    }

    /// Set the selected path
    pub fn set_selected(&mut self, path: Option<String>)
        ensures
            final(self).selected_path == path,
            final(self).entries == old(self).entries,
    {
        self.selected_path = path;
    }

    /// Set filter text and apply filtering
    pub fn set_filter(&mut self, text: String)
        ensures
            final(self).filter_text == text,
            text@.len() == 0 ==> final(self).filtered_indices@.len() == 0,
            text@.len() > 0 ==> final(self).filtered_indices@.map_values(|i: usize| i as int)
                == matching(old(self).entries@, lower_of(text@)),
            final(self).entries == old(self).entries,
    {
        self.filter_text = text;
        self.apply_filter();
    }

    /// Clear the filter
    pub fn clear_filter(&mut self)
        ensures
            final(self).filter_text@.len() == 0,
            final(self).filtered_indices@.len() == 0,
            final(self).entries == old(self).entries,
            final(self).expanded_folders == old(self).expanded_folders,
            final(self).root == old(self).root,
            final(self).error_message == old(self).error_message,
            final(self).selected_path == old(self).selected_path,
    {
        self.filter_text = String::new();
        self.filtered_indices.clear();
    }

    /// Apply current filter to entries: the indices of the entries whose
    /// lower-cased name holds the lower-cased filter
    fn apply_filter(&mut self)
        ensures
            final(self).entries == old(self).entries,
            final(self).filter_text == old(self).filter_text,
            final(self).is_scanning == old(self).is_scanning,
            old(self).filter_text@.len() == 0 ==> final(self).filtered_indices@.len() == 0,
            old(self).filter_text@.len() > 0 ==> final(self).filtered_indices@.map_values(
                |i: usize| i as int,
            ) == matching(old(self).entries@, lower_of(old(self).filter_text@)),
    {
        if self.filter_text.as_str().unicode_len() == 0 {
            self.filtered_indices.clear();
            return;
        }
        let filter_lower = lowercase(self.filter_text.as_str());
        let mut found: Vec<usize> = Vec::new();
        let mut i: usize = 0;
        while i < self.entries.len()
            invariant
                i <= self.entries@.len(),
                self.entries == old(self).entries,
                self.filter_text == old(self).filter_text,
                self.is_scanning == old(self).is_scanning,
                filter_lower@ == lower_of(self.filter_text@),
                found@.map_values(|k: usize| k as int) == matching(
                    self.entries@.subrange(0, i as int),
                    filter_lower@,
                ),
            decreases self.entries@.len() - i,
        {
            let name = lowercase(self.entries[i].name.as_str());
            assert(self.entries@.subrange(0, i + 1).drop_last() =~= self.entries@.subrange(0, i as int));
            if contains_text(name.as_str(), filter_lower.as_str()) {
                let ghost before = found@;
                found.push(i);
                assert(found@.map_values(|k: usize| k as int) =~= before.map_values(|k: usize| k as int).push(i as int));
            }
            i = i + 1;
        }
        assert(self.entries@.subrange(0, self.entries@.len() as int) =~= self.entries@);
        self.filtered_indices = found;
    }

    /// Indices of the entries shown, as `shown` says.
    fn shown_indices(&self) -> (r: Vec<usize>)
        ensures
            r@.map_values(|i: usize| i as int) == self.shown(),
            forall|k: int| 0 <= k < r@.len() ==> (#[trigger] r@[k]) < self.entries@.len(),
    {
        let mut r: Vec<usize> = Vec::new();
        if self.filter_text.as_str().unicode_len() > 0 {
            let n = self.entries.len();
            let mut i: usize = 0;
            while i < self.filtered_indices.len()
                invariant
                    n == self.entries@.len(),
                    i <= self.filtered_indices@.len(),
                    r@.map_values(|k: usize| k as int) == below(
                        self.filtered_indices@.subrange(0, i as int),
                        n as int,
                    ),
                    forall|k: int| 0 <= k < r@.len() ==> (#[trigger] r@[k]) < n,
                decreases self.filtered_indices@.len() - i,
            {
                let x = self.filtered_indices[i];
                assert(self.filtered_indices@.subrange(0, i + 1).drop_last() =~= self.filtered_indices@.subrange(0, i as int));
                if x < n {
                    let ghost before = r@;
                    r.push(x);
                    assert(r@.map_values(|k: usize| k as int) =~= before.map_values(|k: usize| k as int).push(x as int));
                }
                i = i + 1;
            }
            assert(self.filtered_indices@.subrange(0, self.filtered_indices@.len() as int) =~= self.filtered_indices@);
            return r;
        }
        let ghost e = self.entries@;
        let ghost ex = self.expanded_folders@;
        let mut skip: Option<usize> = None;
        let mut k: usize = 0;
        assert(r@.map_values(|j: usize| j as int) =~= Seq::<int>::empty());
        while k < self.entries.len()
            invariant
                k <= e.len(),
                e == self.entries@,
                ex == self.expanded_folders@,
                self.filter_text@.len() == 0,
                r@.map_values(|j: usize| j as int) + shown_from(e, ex, k as int, skip) == shown_from(
                    e,
                    ex,
                    0,
                    None,
                ),
                forall|j: int| 0 <= j < r@.len() ==> (#[trigger] r@[j]) < e.len(),
            decreases e.len() - k,
        {
            let entry = &self.entries[k];
            let skipping = match skip {
                Some(d) => entry.depth > d,
                None => false,
            };
            if !skipping {
                let ghost before = r@;
                r.push(k);
                skip = if entry.is_directory && !self.is_expanded(&entry.path) {
                    Some(entry.depth)
                } else {
                    None
                };
                proof {
                    assert(r@.map_values(|j: usize| j as int) =~= before.map_values(|j: usize| j as int).push(k as int));
                    assert(r@.map_values(|j: usize| j as int) + shown_from(e, ex, k + 1, skip) =~= before.map_values(|j: usize| j as int) + (seq![k as int] + shown_from(e, ex, k + 1, skip)));
                }
            }
            k = k + 1;
        }
        proof {
            assert(r@.map_values(|j: usize| j as int) + Seq::<int>::empty() =~= r@.map_values(|j: usize| j as int));
        }
        r
    }

    /// Get visible entries (respecting expansion and filter), with their
    /// indices
    pub fn visible_entries(&self) -> (r: Vec<(usize, &FileEntry)>)
        ensures
            r@.len() == self.shown().len(),
            forall|k: int| 0 <= k < r@.len() ==> (#[trigger] r@[k]).0 == self.shown()[k] && r@[k].1
                == &self.entries@[self.shown()[k]],
    {
        let idx = self.shown_indices();
        let mut r: Vec<(usize, &FileEntry)> = Vec::new();
        let mut k: usize = 0;
        while k < idx.len()
            invariant
                k <= idx@.len(),
                idx@.map_values(|i: usize| i as int) == self.shown(),
                forall|j: int| 0 <= j < idx@.len() ==> (#[trigger] idx@[j]) < self.entries@.len(),
                r@.len() == k,
                forall|j: int| 0 <= j < k ==> (#[trigger] r@[j]).0 == idx@[j] && r@[j].1
                    == &self.entries@[idx@[j] as int],
            decreases idx@.len() - k,
        {
            let i = idx[k];
            r.push((i, &self.entries[i]));
            k = k + 1;
        }
        proof {
            assert forall|j: int| 0 <= j < r@.len() implies (#[trigger] r@[j]).0 == self.shown()[j] by {
                assert(self.shown()[j] == idx@.map_values(|i: usize| i as int)[j]);
            }
        }
        r
    }

    /// Move focus to the previous shown entry, wrapping to the last; from
    /// an entry not shown, to the first
    pub fn focus_up(&mut self)
        ensures
            old(self).shown().len() == 0 ==> final(self).focused_index == old(self).focused_index,
            old(self).shown().len() > 0 ==> ({
                let v = old(self).shown();
                let cur = match old(self).focused_index {
                    Some(i) => i as int,
                    None => 0,
                };
                let p = position_in(v, cur);
                let np = if p > 0 { p - 1 } else if p == 0 { v.len() - 1 } else { 0 };
                final(self).focused_index == Some(v[np] as usize)
            }),
            final(self).entries == old(self).entries,
    {
        let idx = self.shown_indices();
        if idx.len() == 0 {
            return;
        }
        let current = match self.focused_index {
            Some(i) => i,
            None => 0,
        };
        let pos = position_of(&idx, current);
        proof {
            lemma_position_in_range(idx@.map_values(|i: usize| i as int), current as int);
        }
        let new_pos = match pos {
            Some(p) => {
                if p > 0 {
                    p - 1
                } else {
                    idx.len() - 1
                }
            },
            None => 0,
        };
        self.focused_index = Some(idx[new_pos]);
    }

    /// Move focus to the next shown entry, wrapping to the first; from an
    /// entry not shown, to the first
    pub fn focus_down(&mut self)
        ensures
            old(self).shown().len() == 0 ==> final(self).focused_index == old(self).focused_index,
            old(self).shown().len() > 0 ==> ({
                let v = old(self).shown();
                let cur = match old(self).focused_index {
                    Some(i) => i as int,
                    None => 0,
                };
                let p = position_in(v, cur);
                let np = if 0 <= p < v.len() - 1 { p + 1 } else { 0 };
                final(self).focused_index == Some(v[np] as usize)
            }),
            final(self).entries == old(self).entries,
    {
        let idx = self.shown_indices();
        if idx.len() == 0 {
            return;
        }
        let current = match self.focused_index {
            Some(i) => i,
            None => 0,
        };
        let pos = position_of(&idx, current);
        proof {
            lemma_position_in_range(idx@.map_values(|i: usize| i as int), current as int);
        }
        let new_pos = match pos {
            Some(p) => {
                if p < idx.len() - 1 {
                    p + 1
                } else {
                    0
                }
            },
            None => 0,
        };
        self.focused_index = Some(idx[new_pos]);
    }

    /// Get entry by index
    pub fn get_entry(&self, index: usize) -> (r: Option<&FileEntry>)
        ensures
            r == (if index < self.entries@.len() {
                Some(&self.entries@[index as int])
            } else {
                None
            }),
    {
        if index < self.entries.len() {
            Some(&self.entries[index])
        } else {
            None
        }
    }

    /// Get entry count
    pub fn entry_count(&self) -> (r: usize)
        ensures
            r == self.entries@.len(),
    {
        self.entries.len()
    }

    /// Focused entry
    pub fn focused_entry(&self) -> (r: Option<&FileEntry>)
        ensures
            r == (match self.focused_index {
                Some(i) => if i < self.entries@.len() {
                    Some(&self.entries@[i as int])
                } else {
                    None
                },
                None => None,
            }),
    {
        match self.focused_index {
            Some(i) => self.get_entry(i),
            None => None,
        }
    }

    /// Toggle visibility
    pub fn toggle(&mut self)
        ensures
            final(self).visible == !old(self).visible,
            final(self).entries == old(self).entries,
    {
        self.visible = !self.visible;
    }

    /// Set error message
    pub fn set_error(&mut self, message: String)
        ensures
            final(self).error_message == Some(message),
            final(self).entries == old(self).entries,
    {
        self.error_message = Some(message);
    }

    /// Clear error message
    pub fn clear_error(&mut self)
        ensures
            final(self).error_message is None,
            final(self).entries == old(self).entries,
    {
        self.error_message = None;
    }
}

impl Default for SidebarState {
    fn default() -> (r: Self)
        ensures
            r.entries@.len() == 0,
            r.visible,
    {
        SidebarState::new()
    }
}

} // verus!
