//! Small application-level state types: document encodings, status
//! messages and global search results.

use vstd::prelude::*;
use ropey::Rope;
use crate::config::ViewMode;
use crate::editor::buffer::{
    count_nl, rope_chars, rope_from_str, rope_len_chars, rope_len_lines, rope_new, rope_string,
};
use crate::state::editor_state::EditorState;
use crate::state::sidebar_state::SidebarState;
use crate::state::tab_state::{tab_index, TabState};
use crate::utils::now_millis;
use crate::utils::path::{file_name_of, path_file_name};

verus! {

/// Relies on uuid::Uuid::new_v4 (and `Uuid::as_u128`): a random version-4
/// UUID. Nothing is promised of the value.
#[verifier::external_body]
fn random_uuid() -> (r: u128) {
    uuid::Uuid::new_v4().as_u128()
}

/// Unique identifier for a document, a UUID held as its 128-bit value
#[derive(Debug, Clone, Copy, PartialEq, Eq, Structural, Hash)]
pub struct DocumentId(pub u128);

impl DocumentId {
    /// Create a new random document ID
    pub fn new() -> (r: Self) {
        DocumentId(random_uuid())
    }

    /// The identifier with a given UUID value
    pub fn from_u128(value: u128) -> (r: Self)
        ensures
            r.0 == value,
    {
        DocumentId(value)
    }
}

/// Document encoding
#[derive(Debug, Clone, Copy, PartialEq, Eq, Structural)]
pub enum DocumentEncoding {
    Utf8,
    Utf8Bom,
    Utf16Le,
    Utf16Be,
}

impl Default for DocumentEncoding {
    fn default() -> (r: Self)
        ensures
            r == DocumentEncoding::Utf8,
    {
        DocumentEncoding::Utf8
    }
}

impl DocumentEncoding {
    /// Get display name for the encoding
    pub fn display_name(&self) -> (r: &'static str)
        ensures
            r@ == (match self {
                DocumentEncoding::Utf8 => "UTF-8"@,
                DocumentEncoding::Utf8Bom => "UTF-8 with BOM"@,
                DocumentEncoding::Utf16Le => "UTF-16 LE"@,
                DocumentEncoding::Utf16Be => "UTF-16 BE"@,
            }),
    {
        match self {
            DocumentEncoding::Utf8 => "UTF-8",
            DocumentEncoding::Utf8Bom => "UTF-8 with BOM",
            DocumentEncoding::Utf16Le => "UTF-16 LE",
            DocumentEncoding::Utf16Be => "UTF-16 BE",
        }
    }
}

/// Status message level
#[derive(Debug, Clone, Copy, PartialEq, Eq, Structural)]
pub enum StatusLevel {
    Info,
    Warning,
    Error,
}

/// Status bar message
#[derive(Debug, Clone)]
pub struct StatusMessage {
    /// Message text
    pub text: String,
    /// Message level (info, warning, error)
    pub level: StatusLevel,
    /// When the message was set, in milliseconds
    pub timestamp: u64,
}

/// Global search result entry
#[derive(Debug, Clone)]
pub struct SearchResult {
    /// File path
    pub path: String,
    /// Line number (1-indexed)
    pub line: usize,
    /// Column number (1-indexed)
    pub column: usize,
    /// The matching text
    pub match_text: String,
    /// Context around the match
    pub context: String,
}


/// A single document in the editor
#[derive(Debug, Clone)]
pub struct Document {
    /// Unique identifier for this document
    pub id: DocumentId,
    /// File path (None for untitled documents)
    pub path: Option<String>,
    /// Document content as a rope
    pub content: Rope,
    /// Editor state (cursor, selection, etc.)
    pub editor_state: EditorState,
    /// Whether the document has unsaved changes
    pub modified: bool,
    /// Whether the document is read-only
    pub read_only: bool,
    /// Last known modification time of the file on disk, in seconds
    pub last_disk_mtime: Option<u64>,
    /// Display name for the document
    pub display_name: String,
    /// Document encoding
    pub encoding: DocumentEncoding,
}

impl Document {
    /// Create a new empty, untitled document
    pub fn new() -> (r: Self)
        ensures
            r.path is None,
            rope_chars(r.content).len() == 0,
            r.editor_state.is_fresh(),
            !r.modified,
            !r.read_only,
            r.last_disk_mtime is None,
            r.display_name@ == "Untitled"@,
            r.encoding == DocumentEncoding::Utf8,
    {
        Document {
            id: DocumentId::new(),
            path: None,
            content: rope_new(),
            editor_state: EditorState::new(),
            modified: false,
            read_only: false,
            last_disk_mtime: None,
            display_name: String::from_str("Untitled"),
            encoding: DocumentEncoding::Utf8,
        }
    }

    /// Create a document from a file's path and content; it is named after
    /// the path's file name ("Unknown" when it has none)
    pub fn from_file(path: String, content: String) -> (r: Self)
        ensures
            r.path == Some(path),
            rope_chars(r.content) == content@,
            r.editor_state.is_fresh(),
            !r.modified,
            r.display_name@ == (match file_name_of(path@) {
                Some(n) => n,
                None => "Unknown"@,
            }),
    {
        let display_name = match path_file_name(path.as_str()) {
            Some(n) => n,
            None => String::from_str("Unknown"),
        };
        Document {
            id: DocumentId::new(),
            path: Some(path),
            content: rope_from_str(content.as_str()),
            editor_state: EditorState::new(),
            modified: false,
            read_only: false,
            last_disk_mtime: None,
            display_name,
            encoding: DocumentEncoding::Utf8,
        }
    }

    /// Get the document title for display, with a bullet when modified
    pub fn title(&self) -> (r: String)
        ensures
            r@ == (if self.modified {
                "• "@ + self.display_name@
            } else {
                self.display_name@
            }),
    {
        if self.modified {
            String::from_str("• ").concat(self.display_name.as_str())
        } else {
            self.display_name.clone()
        }
    }

    /// Get the full title: the path, or the name of an untitled document
    pub fn full_title(&self) -> (r: String)
        ensures
            r@ == (match self.path {
                Some(p) => p@,
                None => self.display_name@,
            }),
    {
        match &self.path {
            Some(p) => p.clone(),
            None => self.display_name.clone(),
        }
    }

    /// Check if document has a file on disk
    pub fn has_file(&self) -> (r: bool)
        ensures
            r == self.path is Some,
    {
        self.path.is_some()
    }

    /// Mark the document as modified
    pub fn mark_modified(&mut self)
        ensures
            *final(self) == (Document { modified: true, ..*old(self) }),
    {
        self.modified = true;
    }

    /// Mark the document as saved
    pub fn mark_saved(&mut self)
        ensures
            *final(self) == (Document { modified: false, ..*old(self) }),
    {
        self.modified = false;
    }

    /// Get content as string
    pub fn content_str(&self) -> (r: String)
        ensures
            r@ == rope_chars(self.content),
    {
        rope_string(&self.content)
    }

    /// Get line count
    pub fn line_count(&self) -> (r: usize)
        ensures
            r == count_nl(rope_chars(self.content)) + 1,
    {
        rope_len_lines(&self.content)
    }

    /// Get character count
    pub fn char_count(&self) -> (r: usize)
        ensures
            r == rope_chars(self.content).len(),
    {
        rope_len_chars(&self.content)
    }
}

/// The document was opened from the file at `path`.
pub open spec fn opened_from(d: Document, path: Seq<char>) -> bool {
    d.path matches Some(p) && p@ == path
}

/// Index of the document with id `id`, or -1.
pub open spec fn doc_index(s: Seq<Document>, id: DocumentId) -> int
    decreases s.len(),
{
    if s.len() == 0 {
        -1
    } else if s.last().id == id {
        s.len() - 1
    } else {
        doc_index(s.drop_last(), id)
    }
}

/// The ids of the modified documents, in order.
pub open spec fn modified_ids(s: Seq<Document>) -> Seq<DocumentId>
    decreases s.len(),
{
    if s.len() == 0 {
        Seq::empty()
    } else if s.last().modified {
        modified_ids(s.drop_last()).push(s.last().id)
    } else {
        modified_ids(s.drop_last())
    }
}

/// Root application state
#[derive(Debug)]
pub struct AppState {
    /// All open documents, one per id
    pub documents: Vec<Document>,
    /// Currently active document ID
    pub active_document: Option<DocumentId>,
    /// Tab bar state
    pub tabs: TabState,
    /// Sidebar state
    pub sidebar: SidebarState,
    /// Current view mode
    pub view_mode: ViewMode,
    /// Whether command palette is open
    pub command_palette_open: bool,
    /// Whether find dialog is open
    pub find_dialog_open: bool,
    /// Whether find-replace dialog is open
    pub find_replace_open: bool,
    /// Current find query
    pub find_query: String,
    /// Current replace text
    pub replace_text: String,
    /// Find options: case sensitive
    pub find_case_sensitive: bool,
    /// Find options: whole word
    pub find_whole_word: bool,
    /// Find options: use regex
    pub find_use_regex: bool,
    /// Status bar message
    pub status_message: Option<StatusMessage>,
    /// Whether a quit has been requested
    pub quit_requested: bool,
    /// Documents with pending saves (for quit confirmation)
    pub pending_saves: Vec<DocumentId>,
    /// Global search results
    pub global_search_results: Vec<SearchResult>,
    /// Whether global search is in progress
    pub global_search_in_progress: bool,
}

impl AppState {
    /// Create a new application state: no documents, edit mode, dialogs
    /// closed
    pub fn new() -> (r: Self)
        ensures
            r.documents@.len() == 0,
            r.active_document is None,
            r.tabs.tabs@.len() == 0,
            r.tabs.active_index is None,
            r.view_mode == ViewMode::Edit,
            r.status_message is None,
            !r.quit_requested,
    {
        AppState {
            documents: Vec::new(),
            active_document: None,
            tabs: TabState::new(),
            sidebar: SidebarState::new(),
            view_mode: ViewMode::Edit,
            command_palette_open: false,
            find_dialog_open: false,
            find_replace_open: false,
            find_query: String::new(),
            replace_text: String::new(),
            find_case_sensitive: false,
            find_whole_word: false,
            find_use_regex: false,
            status_message: None,
            quit_requested: false,
            pending_saves: Vec::new(),
            global_search_results: Vec::new(),
            global_search_in_progress: false,
        }
    }

    /// Position of the document with an id.
    fn position(&self, id: DocumentId) -> (r: Option<usize>)
        ensures
            r matches Some(i) ==> i == doc_index(self.documents@, id) && i < self.documents@.len(),
            r is None ==> doc_index(self.documents@, id) == -1,
    {
        let ghost s = self.documents@;
        let mut i: usize = self.documents.len();
        assert(s.subrange(0, s.len() as int) =~= s);
        while i > 0
            invariant
                i <= s.len(),
                s == self.documents@,
                doc_index(s, id) == doc_index(s.subrange(0, i as int), id),
            decreases i,
        {
            assert(s.subrange(0, i as int).drop_last() =~= s.subrange(0, i - 1));
            if self.documents[i - 1].id == id {
                return Some(i - 1);
            }
            i = i - 1;
        }
        None
    }

    /// Get a document by ID
    pub fn get_document(&self, id: DocumentId) -> (r: Option<&Document>)
        ensures
            doc_index(self.documents@, id) == -1 ==> r is None,
            doc_index(self.documents@, id) >= 0 ==> r == Some(
                &self.documents@[doc_index(self.documents@, id)],
            ),
    {
        match self.position(id) {
            Some(i) => Some(&self.documents[i]),
            None => None,
        }
    }

    /// Get the currently active document
    pub fn active_document(&self) -> (r: Option<&Document>)
        ensures
            self.active_document is None ==> r is None,
            self.active_document matches Some(id) ==> (doc_index(self.documents@, id) == -1
                ==> r is None) && (doc_index(self.documents@, id) >= 0 ==> r == Some(
                &self.documents@[doc_index(self.documents@, id)],
            )),
    {
        match self.active_document {
            Some(id) => self.get_document(id),
            None => None,
        }
    }

    /// Add a document (replacing one with the same id) with a tab after
    /// the active one, and make it active
    pub fn add_document(&mut self, document: Document) -> (r: DocumentId)
        requires
            old(self).tabs.active_ok(),
        ensures
            r == document.id,
            final(self).active_document == Some(r),
            final(self).tabs.active_ok(),
            doc_index(old(self).documents@, r) >= 0 ==> final(self).documents@ == old(self).documents@.update(
                doc_index(old(self).documents@, r),
                document,
            ),
            doc_index(old(self).documents@, r) == -1 ==> final(self).documents@ == old(self).documents@.push(
                document,
            ),
            final(self).tabs.tabs@.len() == old(self).tabs.tabs@.len() + 1,
    {
        let id = document.id;
        let name = document.display_name.clone();
        self.tabs.add_tab(id, name);
        match self.position(id) {
            Some(i) => {
                self.documents.set(i, document);
            },
            None => {
                self.documents.push(document);
            },
        }
        self.active_document = Some(id);
        id
    }

    /// Close a document and its tab; when it was active, the tab bar's
    /// active tab becomes the active document
    pub fn close_document(&mut self, id: DocumentId) -> (r: Option<Document>)
        requires
            old(self).tabs.active_ok(),
        ensures
            final(self).tabs.active_ok(),
            doc_index(old(self).documents@, id) == -1 ==> r is None && final(self).documents@
                == old(self).documents@,
            doc_index(old(self).documents@, id) >= 0 ==> r == Some(
                old(self).documents@[doc_index(old(self).documents@, id)],
            ) && final(self).documents@ == old(self).documents@.remove(
                doc_index(old(self).documents@, id),
            ),
            tab_index(old(self).tabs.tabs@, id) >= 0 ==> final(self).tabs.tabs@ == old(self).tabs.tabs@.remove(
                tab_index(old(self).tabs.tabs@, id),
            ),
            old(self).active_document == Some(id) ==> final(self).active_document == (match final(self).tabs.active_index {
                Some(i) => if i < final(self).tabs.tabs@.len() {
                    Some(final(self).tabs.tabs@[i as int].document_id)
                } else {
                    None
                },
                None => None,
            }),
            old(self).active_document != Some(id) ==> final(self).active_document
                == old(self).active_document,
    {
        let doc = match self.position(id) {
            Some(i) => Some(self.documents.remove(i)),
            None => None,
        };
        self.tabs.remove_tab(id);
        if self.active_document == Some(id) {
            self.active_document = self.tabs.active_tab();
        }
        doc
    }

    /// Set the active document (no change for an unknown id)
    pub fn set_active_document(&mut self, id: DocumentId)
        ensures
            doc_index(old(self).documents@, id) >= 0 ==> final(self).active_document == Some(id)
                && final(self).tabs.active_index == (if tab_index(old(self).tabs.tabs@, id) >= 0 {
                Some(tab_index(old(self).tabs.tabs@, id) as usize)
            } else {
                old(self).tabs.active_index
            }),
            doc_index(old(self).documents@, id) == -1 ==> final(self).active_document
                == old(self).active_document && final(self).tabs == old(self).tabs,
            final(self).tabs.tabs == old(self).tabs.tabs,
            final(self).documents == old(self).documents,
    {
        if self.position(id).is_some() {
            self.active_document = Some(id);
            self.tabs.set_active(id);
        }
    }

    /// Find a document by its file path (the first open one)
    pub fn find_document_by_path(&self, path: &String) -> (r: Option<DocumentId>)
        ensures
            r matches Some(id) ==> exists|i: int| 0 <= i < self.documents@.len() && (#[trigger] self.documents@[i]).id == id
                && opened_from(self.documents@[i], path@),
            r is None ==> forall|i: int| 0 <= i < self.documents@.len() ==> !opened_from(#[trigger] self.documents@[i], path@),
    {
        let mut i: usize = 0;
        while i < self.documents.len()
            invariant
                i <= self.documents@.len(),
                forall|j: int| 0 <= j < i ==> !opened_from(#[trigger] self.documents@[j], path@),
            decreases self.documents@.len() - i,
        {
            let found = match &self.documents[i].path {
                Some(p) => *p == *path,
                None => false,
            };
            if found {
                return Some(self.documents[i].id);
            }
            i = i + 1;
        }
        None
    }

    /// Check if any documents have unsaved changes
    pub fn has_unsaved_changes(&self) -> (r: bool)
        ensures
            r == exists|i: int| 0 <= i < self.documents@.len() && (#[trigger] self.documents@[i]).modified,
    {
        let mut i: usize = 0;
        while i < self.documents.len()
            invariant
                i <= self.documents@.len(),
                forall|j: int| 0 <= j < i ==> !(#[trigger] self.documents@[j]).modified,
            decreases self.documents@.len() - i,
        {
            if self.documents[i].modified {
                return true;
            }
            i = i + 1;
        }
        false
    }

    /// Get all documents with unsaved changes
    pub fn unsaved_documents(&self) -> (r: Vec<DocumentId>)
        ensures
            r@ == modified_ids(self.documents@),
    {
        let mut r: Vec<DocumentId> = Vec::new();
        let mut i: usize = 0;
        while i < self.documents.len()
            invariant
                i <= self.documents@.len(),
                r@ == modified_ids(self.documents@.subrange(0, i as int)),
            decreases self.documents@.len() - i,
        {
            assert(self.documents@.subrange(0, i + 1).drop_last() =~= self.documents@.subrange(0, i as int));
            if self.documents[i].modified {
                r.push(self.documents[i].id);
            }
            i = i + 1;
        }
        assert(self.documents@.subrange(0, self.documents@.len() as int) =~= self.documents@);
        r
    }

    /// Get document count
    pub fn document_count(&self) -> (r: usize)
        ensures
            r == self.documents@.len(),
    {
        self.documents.len()
    }

    /// Check if there are any open documents
    pub fn has_documents(&self) -> (r: bool)
        ensures
            r == (self.documents@.len() > 0),
    {
        !self.documents.is_empty()
    }

    /// Set a status message, stamped with the current time
    pub fn set_status(&mut self, message: String, level: StatusLevel)
        ensures
            final(self).status_message matches Some(m) && m.text == message && m.level == level,
            final(self).documents == old(self).documents,
    {
        self.status_message = Some(StatusMessage { text: message, level, timestamp: now_millis() });
    }

    /// Clear the status message
    pub fn clear_status(&mut self)
        ensures
            final(self).status_message is None,
            final(self).documents == old(self).documents,
    {
        self.status_message = None;
    }

    /// Toggle sidebar visibility
    pub fn toggle_sidebar(&mut self)
        ensures
            final(self).sidebar.visible == !old(self).sidebar.visible,
            final(self).documents == old(self).documents,
    {
        self.sidebar.visible = !self.sidebar.visible;
    }

    /// Cycle the view mode: edit, preview, split, edit
    pub fn cycle_view_mode(&mut self)
        ensures
            final(self).view_mode == (match old(self).view_mode {
                ViewMode::Edit => ViewMode::Preview,
                ViewMode::Preview => ViewMode::Split,
                ViewMode::Split => ViewMode::Edit,
            }),
            final(self).documents == old(self).documents,
    {
        self.view_mode = match self.view_mode {
            ViewMode::Edit => ViewMode::Preview,
            ViewMode::Preview => ViewMode::Split,
            ViewMode::Split => ViewMode::Edit,
        };
    }

    /// Set view mode
    pub fn set_view_mode(&mut self, mode: ViewMode)
        ensures
            final(self).view_mode == mode,
            final(self).documents == old(self).documents,
    {
        self.view_mode = mode;
    }
}

} // verus!
