//! Session data kept across restarts: window state, open and recent files
//! (reading and writing it is done by the application).
//!
//! Paths are carried as text and times as seconds since the Unix epoch.

use vstd::prelude::*;
use crate::config::ViewMode;
use crate::utils::{decimal, now_millis, u64_to_string};
use crate::utils::path::{file_name_of, path_file_name};

verus! {

/// Most recent files remembered.
pub const MAX_RECENT: usize = 20;

/// A recently opened file
#[derive(Debug, Clone)]
pub struct RecentFile {
    /// File path
    pub path: String,
    /// When the file was last opened, in seconds since the epoch
    pub last_opened: i64,
}

/// Whole units of `unit` seconds in `d`, rounded toward zero.
pub open spec fn whole_units(d: int, unit: int) -> int {
    if d >= 0 {
        d / unit
    } else {
        -((-d) / unit)
    }
}

/// How long ago `then` was, seen at `now`, in the largest whole unit.
pub open spec fn since_text(then: i64, now: i64) -> Seq<char> {
    let d = now - then;
    if whole_units(d, 86400) > 0 {
        decimal(whole_units(d, 86400) as nat) + " days ago"@
    } else if whole_units(d, 3600) > 0 {
        decimal(whole_units(d, 3600) as nat) + " hours ago"@
    } else if whole_units(d, 60) > 0 {
        decimal(whole_units(d, 60) as nat) + " minutes ago"@
    } else {
        "Just now"@
    }
}

/// Seconds now, read from the clock.
fn now_secs() -> (r: i64) {
    (now_millis() / 1000) as i64
}

impl RecentFile {
    /// Get display name: the path's file name, else the whole path
    pub fn display_name(&self) -> (r: String)
        ensures
            r@ == (match file_name_of(self.path@) {
                Some(n) => n,
                None => self.path@,
            }),
    {
        match path_file_name(self.path.as_str()) {
            Some(n) => n,
            None => self.path.clone(),
        }
    }

    /// Time since last opened, seen at `now`
    pub fn relative_time_at(&self, now: i64) -> (r: String)
        ensures
            r@ == since_text(self.last_opened, now),
    {
        let d: i128 = now as i128 - self.last_opened as i128;
        if d >= 86400 {
            let days = d / 86400;
            u64_to_string(days as u64).concat(" days ago")
        } else if d >= 3600 {
            u64_to_string((d / 3600) as u64).concat(" hours ago")
        } else if d >= 60 {
            u64_to_string((d / 60) as u64).concat(" minutes ago")
        } else {
            String::from_str("Just now")
        }
    }

    /// Time since last opened
    pub fn relative_time(&self) -> (r: String) {
        self.relative_time_at(now_secs())
    }
}

/// `s` without the recent files at `p`.
pub open spec fn without_file(s: Seq<RecentFile>, p: Seq<char>) -> Seq<RecentFile>
    decreases s.len(),
{
    if s.len() == 0 {
        s
    } else if s.last().path@ == p {
        without_file(s.drop_last(), p)
    } else {
        without_file(s.drop_last(), p).push(s.last())
    }
}

/// Session state that can be saved and restored
#[derive(Debug, Clone)]
pub struct SessionState {
    /// Window position (x, y)
    pub window_position: Option<(i32, i32)>,
    /// Window size (width, height)
    pub window_size: Option<(u32, u32)>,
    /// Whether window was maximized
    pub window_maximized: bool,
    /// Sidebar visibility
    pub sidebar_visible: bool,
    /// Sidebar width
    pub sidebar_width: u32,
    /// View mode
    pub view_mode: ViewMode,
    /// Open documents (file paths)
    pub open_files: Vec<String>,
    /// Active document index in open_files
    pub active_file_index: Option<usize>,
    /// Last opened directory
    pub last_directory: Option<String>,
    /// Recent files, the most recent first
    pub recent_files: Vec<RecentFile>,
    /// Session version for migration
    pub version: u32,
}

impl Default for SessionState {
    fn default() -> (r: Self)
        ensures
            r.window_position is None,
            r.window_size == Some((1200u32, 800u32)),
            !r.window_maximized,
            r.sidebar_visible,
            r.sidebar_width == 250,
            r.view_mode == ViewMode::Edit,
            r.open_files@.len() == 0,
            r.active_file_index is None,
            r.last_directory is None,
            r.recent_files@.len() == 0,
            r.version == 1,
    {
        SessionState {
            window_position: None,
            window_size: Some((1200, 800)),
            window_maximized: false,
            sidebar_visible: true,
            sidebar_width: 250,
            view_mode: ViewMode::Edit,
            open_files: Vec::new(),
            active_file_index: None,
            last_directory: None,
            recent_files: Vec::new(),
            version: 1,
        }
    }
}

impl SessionState {
    /// Create a new session state
    pub fn new() -> (r: Self)
        ensures
            r.recent_files@.len() == 0,
            r.open_files@.len() == 0,
            r.version == 1,
    {
        Self::default()
    }

    /// Remove a file from recent files
    pub fn remove_recent_file(&mut self, path: &String)
        ensures
            final(self).recent_files@ == without_file(old(self).recent_files@, path@),
            final(self).open_files == old(self).open_files,
    {
        let ghost s = self.recent_files@;
        let n = self.recent_files.len();
        let mut kept: Vec<RecentFile> = Vec::new();
        let mut k: usize = 0;
        while self.recent_files.len() > 0
            invariant
                k + self.recent_files@.len() == s.len(),
                s.len() == n,
                s == old(self).recent_files@,
                self.recent_files@ == s.subrange(k as int, s.len() as int),
                kept@ == without_file(s.subrange(0, k as int), path@),
                self.open_files == old(self).open_files,
            decreases self.recent_files@.len(),
        {
            let f = self.recent_files.remove(0);
            assert(s.subrange(0, k + 1).drop_last() =~= s.subrange(0, k as int));
            assert(s.subrange(k + 1, s.len() as int) =~= s.subrange(k as int, s.len() as int).subrange(
                1,
                s.len() - k,
            ));
            if f.path != *path {
                kept.push(f);
            }
            k = k + 1;
        }
        assert(s.subrange(0, s.len() as int) =~= s);
        self.recent_files = kept;
    }

    /// Put a file at the front of the recent files, opened at `now`
    /// (seconds); an older entry for it leaves, and at most 20 are kept
    pub fn add_recent_file_at(&mut self, path: String, now: i64)
        ensures
            ({
                let rest = without_file(old(self).recent_files@, path@);
                let all = seq![RecentFile { path, last_opened: now }] + rest;
                final(self).recent_files@ == if all.len() > MAX_RECENT {
                    all.subrange(0, MAX_RECENT as int)
                } else {
                    all
                }
            }),
    {
        self.remove_recent_file(&path);
        self.recent_files.insert(0, RecentFile { path, last_opened: now });
        self.recent_files.truncate(MAX_RECENT);
    }

    /// Put a file at the front of the recent files, opened now
    pub fn add_recent_file(&mut self, path: String)
        ensures
            final(self).recent_files@.len() > 0,
            final(self).recent_files@[0].path == path,
    {
        self.add_recent_file_at(path, now_secs());
    }

    /// Clear recent files
    pub fn clear_recent_files(&mut self)
        ensures
            final(self).recent_files@.len() == 0,
            final(self).open_files == old(self).open_files,
    {
        self.recent_files.clear();
    }

    /// Update window state; position and size are kept while maximized
    pub fn update_window_state(
        &mut self,
        position: Option<(i32, i32)>,
        size: Option<(u32, u32)>,
        maximized: bool,
    )
        ensures
            final(self).window_position == (if maximized {
                old(self).window_position
            } else {
                position
            }),
            final(self).window_size == (if maximized { old(self).window_size } else { size }),
            final(self).window_maximized == maximized,
            final(self).recent_files == old(self).recent_files,
    {
        if !maximized {
            self.window_position = position;
            self.window_size = size;
        }
        self.window_maximized = maximized;
    }

    /// Update open files from current state
    pub fn update_open_files(&mut self, files: Vec<String>, active_index: Option<usize>)
        ensures
            final(self).open_files == files,
            final(self).active_file_index == active_index,
            final(self).recent_files == old(self).recent_files,
    {
        self.open_files = files;
        self.active_file_index = active_index;
    }
}

/// Session-related errors
#[derive(Debug, Clone)]
pub enum SessionError {
    /// Error loading session
    LoadError(String),
    /// Error parsing session data
    ParseError(String),
    /// Error saving session
    SaveError(String),
    /// Could not determine session directory
    DirectoryError,
}

impl SessionError {
    /// Message describing the error
    pub fn message(&self) -> (r: String)
        ensures
            r@ == (match self {
                SessionError::LoadError(e) => "Failed to load session: "@ + e@,
                SessionError::ParseError(e) => "Failed to parse session: "@ + e@,
                SessionError::SaveError(e) => "Failed to save session: "@ + e@,
                SessionError::DirectoryError => "Could not determine session directory"@,
            }),
    {
        match self {
            SessionError::LoadError(e) => String::from_str("Failed to load session: ").concat(e.as_str()),
            SessionError::ParseError(e) => String::from_str("Failed to parse session: ").concat(e.as_str()),
            SessionError::SaveError(e) => String::from_str("Failed to save session: ").concat(e.as_str()),
            SessionError::DirectoryError => String::from_str("Could not determine session directory"),
        }
    }
}

/// Recovery file information for crash recovery
#[derive(Debug, Clone)]
pub struct RecoveryFile {
    /// Original file path (if any)
    pub original_path: Option<String>,
    /// Recovery file path
    pub recovery_path: String,
    /// Document display name
    pub display_name: String,
    /// When the recovery was created, in seconds since the epoch
    pub created_at: i64,
    /// Document ID (for matching with session)
    pub document_id: Option<String>,
}

impl RecoveryFile {
    /// Create a new recovery file entry, created now
    pub fn new(original_path: Option<String>, recovery_path: String, display_name: String) -> (r: Self)
        ensures
            r.original_path == original_path,
            r.recovery_path == recovery_path,
            r.display_name == display_name,
            r.document_id is None,
    {
        RecoveryFile {
            original_path,
            recovery_path,
            display_name,
            created_at: now_secs(),
            document_id: None,
        }
    }

    /// Whether the recovery is more than `max_age_days` whole days old at
    /// `now` (seconds)
    pub fn is_stale_at(&self, now: i64, max_age_days: i64) -> (r: bool)
        ensures
            r == (whole_units(now - self.created_at, 86400) > max_age_days),
    {
        let d: i128 = now as i128 - self.created_at as i128;
        let days: i128 = if d >= 0 {
            d / 86400
        } else {
            -((-d) / 86400)
        };
        days > max_age_days as i128
    }

    /// Check if recovery file is stale (older than threshold)
    pub fn is_stale(&self, max_age_days: i64) -> (r: bool) {
        self.is_stale_at(now_secs(), max_age_days)
    }
}

} // verus!
