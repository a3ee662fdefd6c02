//! Configuration types and their defaults (loading and saving are done by
//! the application).

use vstd::prelude::*;
use crate::file_handler::io::MAX_FILE_SIZE;

verus! {

/// Application ID for desktop integration
pub const APP_ID: &'static str = "com.cosmic.Notebook";

/// Default window width
pub const DEFAULT_WINDOW_WIDTH: u32 = 1200;

/// Default window height
pub const DEFAULT_WINDOW_HEIGHT: u32 = 800;

/// Minimum window width
pub const MIN_WINDOW_WIDTH: u32 = 400;

/// Minimum window height
pub const MIN_WINDOW_HEIGHT: u32 = 300;

/// Default auto-save interval in seconds
pub const DEFAULT_AUTOSAVE_INTERVAL: u64 = 60;

/// Maximum number of recent files to remember
pub const MAX_RECENT_FILES: usize = 20;

/// File handling configuration
#[derive(Debug, Clone)]
pub struct FileConfig {
    /// Enable auto-save
    pub autosave_enabled: bool,
    /// Auto-save interval in seconds
    pub autosave_interval: u64,
    /// Create backup files before saving
    pub create_backups: bool,
    /// Maximum file size to open (in bytes)
    pub max_file_size: u64,
    /// Default file extension for new files
    pub default_extension: String,
    /// File extensions to show in sidebar
    pub visible_extensions: Vec<String>,
    /// Show hidden files in sidebar
    pub show_hidden_files: bool,
    /// Recent files list
    pub recent_files: Vec<String>,
    /// Maximum recent files to remember
    pub max_recent_files: usize,
    /// Watch for external file changes
    pub watch_files: bool,
    /// Directories to ignore in file scanning
    pub ignored_directories: Vec<String>,
}

/// A vector of owned strings from string slices.
fn strings(items: &[&str]) -> (r: Vec<String>)
    ensures
        r@.len() == items@.len(),
        forall|i: int| 0 <= i < items@.len() ==> #[trigger] r@[i]@ == items@[i]@,
{
    let mut r: Vec<String> = Vec::new();
    let mut i: usize = 0;
    while i < items.len()
        invariant
            i <= items@.len(),
            r@.len() == i,
            forall|j: int| 0 <= j < i ==> #[trigger] r@[j]@ == items@[j]@,
        decreases items@.len() - i,
    {
        r.push(String::from_str(items[i]));
        i = i + 1;
    }
    r
}

impl Default for FileConfig {
    fn default() -> (r: Self)
        ensures
            r.autosave_enabled,
            r.autosave_interval == DEFAULT_AUTOSAVE_INTERVAL,
            r.create_backups,
            r.max_file_size == MAX_FILE_SIZE,
            r.default_extension@ == "md"@,
            r.visible_extensions@.len() == 2,
            !r.show_hidden_files,
            r.recent_files@.len() == 0,
            r.max_recent_files == MAX_RECENT_FILES,
            r.watch_files,
            r.ignored_directories@.len() == 8,
    {
        let visible = ["md", "markdown"];
        let ignored = [".git", "node_modules", "target", "__pycache__", ".venv", "venv", "build", "dist"];
        FileConfig {
            autosave_enabled: true,
            autosave_interval: DEFAULT_AUTOSAVE_INTERVAL,
            create_backups: true,
            max_file_size: MAX_FILE_SIZE,
            default_extension: String::from_str("md"),
            visible_extensions: strings(&visible),
            show_hidden_files: false,
            recent_files: Vec::new(),
            max_recent_files: MAX_RECENT_FILES,
            watch_files: true,
            ignored_directories: strings(&ignored),
        }
    }
}

/// How a document is shown
#[derive(Debug, Clone, Copy, PartialEq, Eq, Structural)]
pub enum ViewMode {
    /// Edit mode only
    Edit,
    /// Preview mode only
    Preview,
    /// Split view (edit + preview)
    Split,
}

impl Default for ViewMode {
    fn default() -> (r: Self)
        ensures
            r == ViewMode::Edit,
    {
        ViewMode::Edit
    }
}

/// Theme preference
#[derive(Debug, Clone, Copy, PartialEq, Eq, Structural)]
pub enum ThemePreference {
    /// Follow system theme
    System,
    /// Always light
    Light,
    /// Always dark
    Dark,
}

impl Default for ThemePreference {
    fn default() -> (r: Self)
        ensures
            r == ThemePreference::System,
    {
        ThemePreference::System
    }
}

/// UI configuration
#[derive(Debug, Clone, Copy, PartialEq, Eq, Structural)]
pub struct UiConfig {
    /// Window width
    pub window_width: u32,
    /// Window height
    pub window_height: u32,
    /// Show sidebar
    pub sidebar_visible: bool,
    /// Sidebar width
    pub sidebar_width: u32,
    /// Default view mode
    pub default_view_mode: ViewMode,
    /// Show status bar
    pub show_status_bar: bool,
    /// Show toolbar
    pub show_toolbar: bool,
    /// Remember window size and position
    pub remember_window_state: bool,
    /// Theme preference
    pub theme: ThemePreference,
}

impl Default for UiConfig {
    fn default() -> (r: Self)
        ensures
            r == (UiConfig {
                window_width: DEFAULT_WINDOW_WIDTH,
                window_height: DEFAULT_WINDOW_HEIGHT,
                sidebar_visible: true,
                sidebar_width: 250,
                default_view_mode: ViewMode::Edit,
                show_status_bar: true,
                show_toolbar: true,
                remember_window_state: true,
                theme: ThemePreference::System,
            }),
    {
        UiConfig {
            window_width: DEFAULT_WINDOW_WIDTH,
            window_height: DEFAULT_WINDOW_HEIGHT,
            sidebar_visible: true,
            sidebar_width: 250,
            default_view_mode: ViewMode::Edit,
            show_status_bar: true,
            show_toolbar: true,
            remember_window_state: true,
            theme: ThemePreference::System,
        }
    }
}

/// Keyboard shortcut configuration
#[derive(Debug, Clone)]
pub struct KeybindingsConfig {
    pub new_file: String,
    pub open_file: String,
    pub save_file: String,
    pub save_file_as: String,
    pub close_tab: String,
    pub undo: String,
    pub redo: String,
    pub cut: String,
    pub copy: String,
    pub paste: String,
    pub select_all: String,
    pub find: String,
    pub find_replace: String,
    pub find_next: String,
    pub find_previous: String,
    pub go_to_line: String,
    pub next_tab: String,
    pub previous_tab: String,
    pub command_palette: String,
    pub toggle_sidebar: String,
    pub toggle_preview: String,
    pub zoom_in: String,
    pub zoom_out: String,
    pub zoom_reset: String,
}

impl Default for KeybindingsConfig {
    fn default() -> (r: Self)
        ensures
            r.undo@ == "Ctrl+Z"@,
            r.redo@ == "Ctrl+Y"@,
            r.save_file@ == "Ctrl+S"@,
            r.find@ == "Ctrl+F"@,
            r.go_to_line@ == "Ctrl+G"@,
    {
        KeybindingsConfig {
            new_file: String::from_str("Ctrl+N"),
            open_file: String::from_str("Ctrl+O"),
            save_file: String::from_str("Ctrl+S"),
            save_file_as: String::from_str("Ctrl+Shift+S"),
            close_tab: String::from_str("Ctrl+W"),
            undo: String::from_str("Ctrl+Z"),
            redo: String::from_str("Ctrl+Y"),
            cut: String::from_str("Ctrl+X"),
            copy: String::from_str("Ctrl+C"),
            paste: String::from_str("Ctrl+V"),
            select_all: String::from_str("Ctrl+A"),
            find: String::from_str("Ctrl+F"),
            find_replace: String::from_str("Ctrl+H"),
            find_next: String::from_str("F3"),
            find_previous: String::from_str("Shift+F3"),
            go_to_line: String::from_str("Ctrl+G"),
            next_tab: String::from_str("Ctrl+Tab"),
            previous_tab: String::from_str("Ctrl+Shift+Tab"),
            command_palette: String::from_str("Ctrl+Shift+P"),
            toggle_sidebar: String::from_str("Ctrl+B"),
            toggle_preview: String::from_str("Ctrl+Shift+V"),
            zoom_in: String::from_str("Ctrl+="),
            zoom_out: String::from_str("Ctrl+-"),
            zoom_reset: String::from_str("Ctrl+0"),
        }
    }
}

} // verus!
