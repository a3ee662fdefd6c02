use cosmic_notebook::config::ViewMode;
use cosmic_notebook::state::{AppState, Document, StatusLevel};

#[test]
fn test_document_new() {
    let doc = Document::new();
    assert!(doc.path.is_none());
    assert!(!doc.modified);
    assert_eq!(doc.display_name, "Untitled");
}

#[test]
fn test_document_from_file() {
    let path = "/test/file.md".to_string();
    let content = "# Hello\n\nWorld".to_string();
    let doc = Document::from_file(path.clone(), content);
    assert_eq!(doc.path, Some(path));
    assert_eq!(doc.display_name, "file.md");
    assert!(!doc.modified);
    assert_eq!(doc.line_count(), 3);
    assert_eq!(doc.char_count(), 14);
    assert_eq!(doc.content_str(), "# Hello\n\nWorld");
    assert_eq!(doc.full_title(), "/test/file.md");
    assert!(doc.has_file());
}

#[test]
fn test_document_title() {
    let mut doc = Document::new();
    assert_eq!(doc.title(), "Untitled");
    doc.mark_modified();
    assert_eq!(doc.title(), "• Untitled");
    doc.mark_saved();
    assert_eq!(doc.title(), "Untitled");
}

#[test]
fn test_app_state_add_document() {
    let mut state = AppState::new();
    let doc = Document::new();
    let id = state.add_document(doc);
    assert!(state.get_document(id).is_some());
    assert_eq!(state.active_document, Some(id));
    assert_eq!(state.document_count(), 1);
}

#[test]
fn test_app_state_close_document() {
    let mut state = AppState::new();
    let doc = Document::new();
    let id = state.add_document(doc);
    let closed = state.close_document(id);
    assert!(closed.is_some());
    assert_eq!(state.document_count(), 0);
    assert!(state.active_document.is_none());
}

#[test]
fn test_app_state_unsaved_changes() {
    let mut state = AppState::new();
    let mut doc = Document::new();
    doc.mark_modified();
    state.add_document(doc);
    assert!(state.has_unsaved_changes());
    assert_eq!(state.unsaved_documents().len(), 1);
}

#[test]
fn app_state_switching_and_modes() {
    let mut state = AppState::new();
    let a = state.add_document(Document::from_file("/a.md".to_string(), "a".to_string()));
    let b = state.add_document(Document::from_file("/b.md".to_string(), "b".to_string()));
    assert_eq!(state.active_document().unwrap().id, b);
    state.set_active_document(a);
    assert_eq!(state.active_document, Some(a));
    assert_eq!(state.tabs.active_tab(), Some(a));
    assert_eq!(state.find_document_by_path(&"/b.md".to_string()), Some(b));
    assert_eq!(state.find_document_by_path(&"/c.md".to_string()), None);
    state.close_document(a);
    assert_eq!(state.active_document, Some(b));
    assert!(!state.has_unsaved_changes());
    state.cycle_view_mode();
    assert_eq!(state.view_mode, ViewMode::Preview);
    state.cycle_view_mode();
    assert_eq!(state.view_mode, ViewMode::Split);
    state.set_view_mode(ViewMode::Edit);
    state.set_status("saved".to_string(), StatusLevel::Info);
    assert_eq!(state.status_message.as_ref().unwrap().text, "saved");
    state.clear_status();
    state.toggle_sidebar();
    assert!(!state.sidebar.visible);
    assert!(state.has_documents());
}
