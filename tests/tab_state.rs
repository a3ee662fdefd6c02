use cosmic_notebook::state::{DocumentId, Tab, TabState};

fn create_test_id() -> DocumentId {
    DocumentId::new()
}

#[test]
fn test_add_tab() {
    let mut state = TabState::new();
    let id = create_test_id();
    state.add_tab(id, "test.md".to_string());
    assert_eq!(state.count(), 1);
    assert_eq!(state.active_index, Some(0));
    assert_eq!(state.active_tab(), Some(id));
}

#[test]
fn test_remove_tab() {
    let mut state = TabState::new();
    let id1 = create_test_id();
    let id2 = create_test_id();
    state.add_tab(id1, "test1.md".to_string());
    state.add_tab(id2, "test2.md".to_string());
    assert_eq!(state.count(), 2);
    state.remove_tab(id2);
    assert_eq!(state.count(), 1);
    assert_eq!(state.active_tab(), Some(id1));
}

#[test]
fn test_next_prev_tab() {
    let mut state = TabState::new();
    let id1 = create_test_id();
    let id2 = create_test_id();
    let id3 = create_test_id();
    state.add_tab(id1, "1.md".to_string());
    state.set_active_index(0);
    state.add_tab(id2, "2.md".to_string());
    state.set_active_index(1);
    state.add_tab(id3, "3.md".to_string());
    state.set_active_index(0);
    state.next_tab();
    assert_eq!(state.active_index, Some(1));
    state.next_tab();
    assert_eq!(state.active_index, Some(2));
    state.next_tab();
    assert_eq!(state.active_index, Some(0));
    state.prev_tab();
    assert_eq!(state.active_index, Some(2));
}

#[test]
fn test_move_tab() {
    let mut state = TabState::new();
    let id1 = create_test_id();
    let id2 = create_test_id();
    let id3 = create_test_id();
    state.tabs.push(Tab::new(id1, "1.md".to_string()));
    state.tabs.push(Tab::new(id2, "2.md".to_string()));
    state.tabs.push(Tab::new(id3, "3.md".to_string()));
    state.active_index = Some(0);
    state.move_tab(0, 2);
    assert_eq!(state.tabs[0].document_id, id2);
    assert_eq!(state.tabs[1].document_id, id1);
    assert_eq!(state.tabs[2].document_id, id3);
}

#[test]
fn tabs_titles_pins_and_closing() {
    let a = DocumentId::from_u128(1);
    let b = DocumentId::from_u128(2);
    let c = DocumentId::from_u128(3);
    let mut state = TabState::default();
    state.add_tab(a, "a".to_string());
    state.add_tab(b, "b".to_string());
    state.add_tab(c, "c".to_string());
    assert_eq!(state.document_ids(), vec![a, b, c]);
    state.update_title(b, "bee".to_string());
    assert_eq!(state.tabs[1].title, "bee");
    state.toggle_pin(b);
    assert!(state.tabs[1].pinned);
    state.set_active(a);
    assert_eq!(state.active_index, Some(0));
    state.start_drag(0);
    state.update_drop_target(Some(2));
    state.end_drag();
    assert_eq!(state.document_ids(), vec![b, a, c]);
    assert_eq!(state.active_index, Some(1));
    state.set_active(c);
    state.close_to_right(a);
    assert_eq!(state.document_ids(), vec![b, a]);
    assert_eq!(state.active_index, Some(1));
    state.close_others(b);
    assert_eq!(state.document_ids(), vec![b]);
    assert_eq!(state.active_tab_ref().unwrap().title, "bee");
    state.remove_tab(b);
    assert!(state.is_empty());
    assert_eq!(state.active_index, None);
    state.cancel_drag();
    assert_ne!(DocumentId::new(), DocumentId::new());
}
