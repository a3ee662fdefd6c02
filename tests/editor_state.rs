use cosmic_notebook::state::{CursorPosition, EditOperation, EditorState, Selection};

#[test]
fn test_cursor_position_display() {
    let pos = CursorPosition::new(5, 10);
    assert_eq!(pos.display_line(), 6);
    assert_eq!(pos.display_column(), 11);
    assert_eq!(pos.to_string(), "Ln 6, Col 11");
}

#[test]
fn test_selection_collapsed() {
    let pos = CursorPosition::new(0, 0);
    let sel = Selection::collapsed(pos);
    assert!(sel.is_collapsed());
}

#[test]
fn test_selection_normalized() {
    let sel = Selection::new(CursorPosition::new(5, 10), CursorPosition::new(2, 5));
    let (start, end) = sel.normalized();
    assert_eq!(start.line, 2);
    assert_eq!(end.line, 5);
}

#[test]
fn test_selection_contains() {
    let sel = Selection::new(CursorPosition::new(2, 5), CursorPosition::new(5, 10));
    assert!(sel.contains(CursorPosition::new(3, 0)));
    assert!(sel.contains(CursorPosition::new(2, 5)));
    assert!(sel.contains(CursorPosition::new(5, 10)));
    assert!(!sel.contains(CursorPosition::new(1, 0)));
    assert!(!sel.contains(CursorPosition::new(6, 0)));
}

#[test]
fn test_editor_state_undo_redo() {
    let mut state = EditorState::new();
    let op = EditOperation::insert(
        CursorPosition::new(0, 0),
        "test".to_string(),
        Selection::default(),
        CursorPosition::new(0, 4),
    );
    state.push_undo(op);
    assert!(state.can_undo());
    assert!(!state.can_redo());
    state.pop_undo();
    assert!(!state.can_undo());
    assert!(state.can_redo());
    state.pop_redo();
    assert!(state.can_undo());
    assert!(!state.can_redo());
}

#[test]
fn test_find_navigation() {
    let mut state = EditorState::new();
    state.find_results = vec![(0, 5), (10, 15), (20, 25)];

    let result = state.next_find_result();
    assert_eq!(result, Some((0, 5)));
    assert_eq!(state.current_find_number(), Some(1));

    let result = state.next_find_result();
    assert_eq!(result, Some((10, 15)));
    assert_eq!(state.current_find_number(), Some(2));

    let result = state.prev_find_result();
    assert_eq!(result, Some((0, 5)));
    assert_eq!(state.current_find_number(), Some(1));
}

#[test]
fn normalized_ignores_which_end_is_the_anchor() {
    let a = CursorPosition::new(1, 7);
    let b = CursorPosition::new(3, 2);
    assert_eq!(Selection::new(a, b).normalized(), (a, b));
    assert_eq!(Selection::new(b, a).normalized(), (a, b));
    let c = CursorPosition::new(1, 2);
    assert_eq!(Selection::new(a, c).normalized(), (c, a));
    assert_eq!(Selection::new(a, c).start_position(), c);
    assert_eq!(Selection::new(a, c).end_position(), a);
}

#[test]
fn find_navigation_wraps_both_ways() {
    let mut state = EditorState::new();
    assert_eq!(state.next_find_result(), None);
    state.find_results = vec![(1, 2), (3, 4)];
    assert_eq!(state.prev_find_result(), Some((3, 4)));
    assert_eq!(state.next_find_result(), Some((1, 2)));
    assert_eq!(state.prev_find_result(), Some((3, 4)));
    assert_eq!(state.find_result_count(), 2);
    state.clear_find_results();
    assert_eq!(state.find_result_count(), 0);
    assert_eq!(state.current_find_number(), None);
}

#[test]
fn state_cursor_and_selection_updates() {
    let mut state = EditorState::default();
    state.preferred_column = Some(4);
    state.set_cursor(CursorPosition::new(2, 3));
    assert!(state.selection.is_collapsed());
    assert_eq!(state.preferred_column, None);
    state.extend_selection_to(CursorPosition::new(4, 1));
    assert_eq!(state.selection.start, CursorPosition::new(2, 3));
    assert_eq!(state.cursor, CursorPosition::new(4, 1));
    state.select_all(CursorPosition::new(9, 9));
    assert_eq!(state.selection.start, CursorPosition::start());
    state.set_selection(Selection::new(CursorPosition::new(1, 1), CursorPosition::new(0, 0)));
    assert_eq!(state.cursor, CursorPosition::new(0, 0));
}

#[test]
fn state_history_merges_adjacent_insertions() {
    let mut state = EditorState::new();
    let mut a = EditOperation::insert(
        CursorPosition::new(0, 0),
        "a".to_string(),
        Selection::default(),
        CursorPosition::new(0, 1),
    );
    a.timestamp = 1000;
    let mut b = EditOperation::insert(
        CursorPosition::new(0, 1),
        "b".to_string(),
        Selection::default(),
        CursorPosition::new(0, 2),
    );
    b.timestamp = 1200;
    state.push_undo(a);
    state.push_undo(b);
    assert_eq!(state.undo_stack.len(), 1);
    assert_eq!(state.undo_stack[0].text, "ab");
    let mut d = EditOperation::delete(
        CursorPosition::new(0, 2),
        "b".to_string(),
        Selection::default(),
        CursorPosition::new(0, 1),
    );
    d.timestamp = 1300;
    state.push_undo(d);
    assert_eq!(state.undo_stack.len(), 2);
    state.clear_history();
    assert!(!state.can_undo());
}
