//! Directory scan configuration and the decisions it makes about entries
//! (walking the file system is done by the application).

use vstd::prelude::*;
use crate::state::sidebar_state::{has_path, FileEntry};

verus! {

/// Configuration for directory scanning
#[derive(Debug, Clone)]
pub struct ScanConfig {
    /// Maximum directory depth to scan (0 = root only)
    pub max_depth: usize,
    /// File extensions to include (empty = all files), each once
    pub include_extensions: Vec<String>,
    /// Whether to show hidden files (starting with .)
    pub show_hidden: bool,
    /// Maximum number of entries to return
    pub max_entries: usize,
    /// Directories to always ignore, each once
    pub ignored_dirs: Vec<String>,
    /// Whether to include directories in results
    pub include_directories: bool,
}

/// Whether some string of `v` is `s`.
fn contains_string(v: &Vec<String>, s: &str) -> (r: bool)
    ensures
        r == has_path(v@, s@),
{
    let key = String::from_str(s);
    let mut i: usize = 0;
    while i < v.len()
        invariant
            i <= v@.len(),
            key@ == s@,
            forall|j: int| 0 <= j < i ==> (#[trigger] v@[j])@ != s@,
        decreases v@.len() - i,
    {
        if v[i] == key {
            return true;
        }
        i = i + 1;
    }
    false
}

/// `v` with `s` added at the end unless it is there already.
pub open spec fn with_added(v: Seq<String>, s: Seq<char>) -> Seq<Seq<char>> {
    let w = v.map_values(|x: String| x@);
    if has_path(v, s) {
        w
    } else {
        w.push(s)
    }
}

/// Add `s` unless it is there already.
fn add_once(v: &mut Vec<String>, s: String)
    ensures
        final(v)@.map_values(|x: String| x@) == with_added(old(v)@, s@),
{
    let ghost before = v@;
    if !contains_string(v, s.as_str()) {
        v.push(s);
        assert(v@.map_values(|x: String| x@) =~= before.map_values(|x: String| x@).push(v@.last()@));
    }
}

impl Default for ScanConfig {
    /// Markdown files only, ten levels deep, hidden files hidden, at most
    /// 10,000 entries, the usual build and tool directories ignored.
    fn default() -> (r: Self)
        ensures
            r.max_depth == 10,
            r.include_extensions@.len() == 2,
            !r.show_hidden,
            r.max_entries == 10_000,
            r.ignored_dirs@.len() == 11,
            r.include_directories,
    {
        let mut ignored_dirs: Vec<String> = Vec::new();
        ignored_dirs.push(String::from_str(".git"));
        ignored_dirs.push(String::from_str("node_modules"));
        ignored_dirs.push(String::from_str("target"));
        ignored_dirs.push(String::from_str("__pycache__"));
        ignored_dirs.push(String::from_str(".venv"));
        ignored_dirs.push(String::from_str("venv"));
        ignored_dirs.push(String::from_str("build"));
        ignored_dirs.push(String::from_str("dist"));
        ignored_dirs.push(String::from_str(".cache"));
        ignored_dirs.push(String::from_str(".npm"));
        ignored_dirs.push(String::from_str(".cargo"));
        let mut include_extensions: Vec<String> = Vec::new();
        include_extensions.push(String::from_str("md"));
        include_extensions.push(String::from_str("markdown"));
        ScanConfig {
            max_depth: 10,
            include_extensions,
            show_hidden: false,
            max_entries: 10_000,
            ignored_dirs,
            include_directories: true,
        }
    }
}

impl ScanConfig {
    /// Create a config that shows all files
    pub fn all_files() -> (r: Self)
        ensures
            r.include_extensions@.len() == 0,
            r.max_depth == 10,
            !r.show_hidden,
            r.ignored_dirs@.len() == 11,
    {
        ScanConfig { include_extensions: Vec::new(), ..Self::default() }
    }

    /// Create a config for markdown files only
    pub fn markdown_only() -> (r: Self)
        ensures
            r.include_extensions@.len() == 2,
            r.max_depth == 10,
    {
        Self::default()
    }

    /// Set whether to show hidden files
    pub fn with_hidden(self, show: bool) -> (r: Self)
        ensures
            r == (ScanConfig { show_hidden: show, ..self }),
    {
        ScanConfig { show_hidden: show, ..self }
    }

    /// Set maximum depth
    pub fn with_max_depth(self, depth: usize) -> (r: Self)
        ensures
            r == (ScanConfig { max_depth: depth, ..self }),
    {
        ScanConfig { max_depth: depth, ..self }
    }

    /// Add an extension to include
    pub fn with_extension(self, ext: String) -> (r: Self)
        ensures
            r.include_extensions@.map_values(|x: String| x@) == with_added(
                self.include_extensions@,
                ext@,
            ),
            r.ignored_dirs == self.ignored_dirs,
            r.max_depth == self.max_depth,
            r.show_hidden == self.show_hidden,
    {
        let mut config = self;
        add_once(&mut config.include_extensions, ext);
        config
    }

    /// Add a directory to ignore
    pub fn with_ignored_dir(self, dir: String) -> (r: Self)
        ensures
            r.ignored_dirs@.map_values(|x: String| x@) == with_added(self.ignored_dirs@, dir@),
            r.include_extensions == self.include_extensions,
            r.max_depth == self.max_depth,
            r.show_hidden == self.show_hidden,
    {
        let mut config = self;
        add_once(&mut config.ignored_dirs, dir);
        config
    }
}

/// Whether the walk goes into an entry: a directory is skipped when its
/// name is ignored, or is hidden and hidden files are not shown
pub fn should_include_dir(name: &str, is_dir: bool, config: &ScanConfig) -> (r: bool)
    ensures
        r == !(is_dir && (has_path(config.ignored_dirs@, name@) || (!config.show_hidden
            && name@.len() > 0 && name@[0] == '.'))),
{
    if is_dir {
        if contains_string(&config.ignored_dirs, name) {
            return false;
        }
        if !config.show_hidden && name.unicode_len() > 0 && name.get_char(0) == '.' {
            return false;
        }
    }
    true
}

/// Result of a directory scan
#[derive(Debug, Clone)]
pub struct ScanResult {
    /// The scanned entries
    pub entries: Vec<FileEntry>,
    /// Whether the scan was truncated due to max_entries
    pub truncated: bool,
    /// Number of directories scanned
    pub dirs_scanned: usize,
    /// Number of files found
    pub files_found: usize,
}

} // verus!
