//! Per-document state types.

pub mod editor_state;

pub use editor_state::{CursorPosition, EditKind, EditOperation, EditRecord, EditorState, Selection};
pub mod app_state;

pub use app_state::{AppState, Document, DocumentEncoding, SearchResult, StatusLevel, StatusMessage};
pub mod sidebar_state;

pub use sidebar_state::{FileEntry, SidebarState};
pub mod tab_state;

pub use app_state::DocumentId;
pub use tab_state::{Tab, TabState};
pub mod session_state;

pub use session_state::{RecentFile, RecoveryFile, SessionError, SessionState};
