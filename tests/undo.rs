use cosmic_notebook::editor::undo::{EditKind, EditOperation, UndoManager};
use cosmic_notebook::state::{CursorPosition, Selection};

fn make_insert(pos: usize, text: &str) -> EditOperation {
    EditOperation::insert(
        pos,
        text.to_string(),
        CursorPosition::new(0, pos),
        Selection::collapsed(CursorPosition::new(0, pos)),
        CursorPosition::new(0, pos + text.len()),
    )
}

fn make_delete(pos: usize, text: &str) -> EditOperation {
    EditOperation::delete(
        pos,
        text.to_string(),
        CursorPosition::new(0, pos + text.len()),
        Selection::collapsed(CursorPosition::new(0, pos + text.len())),
        CursorPosition::new(0, pos),
    )
}

#[test]
fn test_undo_redo_basic() {
    let mut manager = UndoManager::with_default_history();
    manager.push(make_insert(0, "Hello"));
    assert!(manager.can_undo());
    assert!(!manager.can_redo());
    let undone = manager.undo();
    assert!(undone.is_some());
    assert!(!manager.can_undo());
    assert!(manager.can_redo());
    let redone = manager.redo();
    assert!(redone.is_some());
    assert!(manager.can_undo());
    assert!(!manager.can_redo());
}

#[test]
fn test_operation_merging() {
    let mut manager = UndoManager::with_default_history();
    manager.push(make_insert(0, "H"));
    manager.push(make_insert(1, "e"));
    manager.push(make_insert(2, "l"));
    assert_eq!(manager.undo_count(), 1);
    let undone = manager.undo().unwrap();
    assert_eq!(undone.text, "Hel");
}

#[test]
fn test_newline_breaks_merge() {
    let mut manager = UndoManager::with_default_history();
    manager.push(make_insert(0, "a"));
    manager.push(make_insert(1, "\n"));
    manager.push(make_insert(2, "b"));
    assert_eq!(manager.undo_count(), 2);
    assert_eq!(manager.undo().unwrap().text, "\nb");
}

#[test]
fn test_saved_state_tracking() {
    let mut manager = UndoManager::with_default_history();
    assert!(manager.is_at_saved_state());
    manager.push(make_insert(0, "test"));
    assert!(!manager.is_at_saved_state());
    manager.mark_saved();
    assert!(manager.is_at_saved_state());
    manager.undo();
    assert!(!manager.is_at_saved_state());
    manager.redo();
    assert!(manager.is_at_saved_state());
}

#[test]
fn test_redo_cleared_on_new_edit() {
    let mut manager = UndoManager::with_default_history();
    manager.push(make_insert(0, "first"));
    manager.undo();
    assert!(manager.can_redo());
    manager.push(make_insert(0, "second"));
    assert!(!manager.can_redo());
}

#[test]
fn test_max_history() {
    let mut manager = UndoManager::new(3);
    for i in 0..5 {
        manager.push(make_insert(i * 2, "\n"));
        manager.push(make_insert(i * 2 + 1, "x"));
    }
    assert!(manager.undo_count() <= 3);
}

#[test]
fn merge_window_is_inclusive_at_500_ms() {
    let mut a = make_insert(0, "a");
    a.timestamp = 10_000;
    let mut b = make_insert(1, "b");
    b.timestamp = 10_499;
    assert!(a.can_merge_with(&b));
    let mut manager = UndoManager::with_default_history();
    manager.push(a.clone());
    manager.push(b);
    assert_eq!(manager.undo_count(), 1);
    assert_eq!(manager.undo().unwrap().text, "ab");

    let mut c = make_insert(1, "c");
    c.timestamp = 10_501;
    assert!(!a.can_merge_with(&c));
    let mut manager = UndoManager::with_default_history();
    manager.push(a);
    manager.push(c);
    assert_eq!(manager.undo_count(), 2);
}

#[test]
fn history_cap_evicts_oldest_first() {
    let mut manager = UndoManager::new(3);
    for i in 0..5usize {
        let mut op = make_insert(i * 10, "\n");
        op.timestamp = 1_000 * i as u64;
        manager.push(op);
    }
    assert_eq!(manager.undo_count(), 3);
    assert_eq!(manager.undo().unwrap().position, 40);
    assert_eq!(manager.undo().unwrap().position, 30);
    assert_eq!(manager.undo().unwrap().position, 20);
    assert!(manager.undo().is_none());
}

#[test]
fn deletes_merge_for_backspace_and_forward_delete() {
    let mut a = make_delete(5, "c");
    a.timestamp = 100;
    let mut b = make_delete(4, "b");
    b.timestamp = 200;
    assert!(a.can_merge_with(&b));
    a.merge(b);
    assert_eq!(a.text, "bc");
    assert_eq!(a.position, 4);
    let mut c = make_delete(4, "x");
    c.timestamp = 300;
    assert!(a.can_merge_with(&c));
    a.merge(c);
    assert_eq!(a.text, "bcx");
    let mut nl = make_delete(4, "\n");
    nl.timestamp = 300;
    assert!(!a.can_merge_with(&nl));
    let ins = make_insert(4, "y");
    assert!(!a.can_merge_with(&ins));
}

#[test]
fn space_after_space_starts_a_new_step() {
    let mut a = make_insert(0, "ab ");
    a.timestamp = 0;
    let mut b = make_insert(3, " ");
    b.timestamp = 1;
    assert!(!a.can_merge_with(&b));
    let mut c = make_insert(0, "ab");
    c.timestamp = 0;
    let mut d = make_insert(2, " ");
    d.timestamp = 1;
    assert!(c.can_merge_with(&d));
}

#[test]
fn replace_kind_and_clear_and_memory() {
    let op = EditOperation::replace(
        0,
        "old".to_string(),
        "new".to_string(),
        CursorPosition::new(0, 0),
        Selection::collapsed(CursorPosition::new(0, 0)),
        CursorPosition::new(0, 3),
    );
    assert!(matches!(op.kind, EditKind::Replace { ref old_text } if old_text == "old"));
    let mut manager = UndoManager::default();
    manager.push(op);
    assert_eq!(manager.memory_usage(), 131);
    manager.undo();
    assert_eq!(manager.redo_count(), 1);
    assert_eq!(manager.memory_usage(), 131);
    manager.clear();
    assert_eq!(manager.undo_count(), 0);
    assert_eq!(manager.redo_count(), 0);
    assert!(manager.is_at_saved_state());
    assert_eq!(manager.memory_usage(), 0);
}

#[test]
fn a_new_edit_after_undo_is_not_the_saved_state() {
    let mut manager = UndoManager::with_default_history();
    manager.push(make_insert(0, "\n"));
    manager.mark_saved();
    manager.undo();
    assert!(!manager.is_at_saved_state());
    manager.push(make_insert(0, "x"));
    assert!(!manager.is_at_saved_state());
    assert!(!manager.can_redo());
}

#[test]
fn operations_take_an_injected_time() {
    let pos = CursorPosition::new(0, 0);
    let a = EditOperation::insert_at_time(0, "a".to_string(), pos, Selection::collapsed(pos), CursorPosition::new(0, 1), 1_000);
    let b = EditOperation::insert_at_time(1, "b".to_string(), pos, Selection::collapsed(pos), CursorPosition::new(0, 2), 1_500);
    let c = EditOperation::insert_at_time(1, "c".to_string(), pos, Selection::collapsed(pos), CursorPosition::new(0, 2), 1_501);
    assert_eq!(a.timestamp, 1_000);
    assert!(a.can_merge_with(&b));
    assert!(!a.can_merge_with(&c));
    let d = EditOperation::delete_at_time(3, "x".to_string(), pos, Selection::collapsed(pos), pos, 7);
    assert_eq!(d.timestamp, 7);
    let r = EditOperation::replace_at_time(0, "o".to_string(), "n".to_string(), pos, Selection::collapsed(pos), pos, 9);
    assert_eq!(r.timestamp, 9);
}
