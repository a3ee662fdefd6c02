use cosmic_notebook::editor::Editor;
use cosmic_notebook::state::{CursorPosition, Selection};

#[test]
fn typing_and_backspace() {
    let mut ed = Editor::new();
    ed.insert_char('h');
    ed.insert_char('i');
    assert_eq!(ed.content(), "hi");
    assert_eq!(ed.cursor(), CursorPosition::new(0, 2));
    ed.insert_char('\n');
    assert_eq!(ed.cursor(), CursorPosition::new(1, 0));
    ed.backspace();
    assert_eq!(ed.cursor(), CursorPosition::new(0, 2));
    assert_eq!(ed.content(), "hi");
    ed.move_document_start(false);
    ed.backspace();
    assert_eq!(ed.content(), "hi");
    assert!(ed.is_modified());
    ed.mark_saved();
    assert!(!ed.is_modified());
}

#[test]
fn multi_line_paste_places_cursor_after_text() {
    let mut ed = Editor::with_content("start end");
    ed.set_cursor(CursorPosition::new(0, 6));
    ed.insert_text("one\ntwo\nthree ");
    assert_eq!(ed.content(), "start one\ntwo\nthree end");
    assert_eq!(ed.cursor(), CursorPosition::new(2, 6));
    assert_eq!(ed.line_count(), 3);
    assert_eq!(ed.get_line(2), Some("three end".to_string()));
}

#[test]
fn inserting_replaces_the_selection() {
    let mut ed = Editor::with_content("hello world");
    ed.move_word_right(true);
    assert!(ed.has_selection());
    assert_eq!(ed.selected_text(), Some("hello ".to_string()));
    ed.insert_char('X');
    assert_eq!(ed.content(), "Xworld");
    assert_eq!(ed.cursor(), CursorPosition::new(0, 1));
    assert!(!ed.has_selection());
}

#[test]
fn extending_keeps_the_anchor() {
    let mut ed = Editor::with_content("abc\ndef");
    ed.move_right(true);
    ed.move_right(true);
    ed.move_down(true);
    let sel = *ed.selection().unwrap();
    assert_eq!(sel.start, CursorPosition::new(0, 0));
    assert_eq!(sel.end, CursorPosition::new(1, 2));
    ed.move_left(false);
    assert!(ed.selection().is_none());
    assert_eq!(ed.cursor(), CursorPosition::new(1, 1));
}

#[test]
fn forward_delete_keeps_cursor() {
    let mut ed = Editor::with_content("abc");
    ed.set_cursor(CursorPosition::new(0, 1));
    ed.delete();
    assert_eq!(ed.content(), "ac");
    assert_eq!(ed.cursor(), CursorPosition::new(0, 1));
    ed.move_end(false);
    ed.delete();
    assert_eq!(ed.content(), "ac");
}

#[test]
fn word_deletion() {
    let mut ed = Editor::with_content("foo bar baz");
    ed.move_document_end(false);
    ed.delete_word_left();
    assert_eq!(ed.content(), "foo bar ");
    assert_eq!(ed.cursor(), CursorPosition::new(0, 8));
    ed.move_document_start(false);
    ed.delete_word_right();
    assert_eq!(ed.content(), "bar ");
    assert_eq!(ed.cursor(), CursorPosition::new(0, 0));
}

#[test]
fn sticky_column_in_the_session() {
    let mut ed = Editor::with_content("abcdefghijklmn\nabcde\nabcdefghijklmnopqr");
    ed.set_cursor(CursorPosition::new(0, 12));
    ed.move_down(false);
    assert_eq!(ed.cursor(), CursorPosition::new(1, 5));
    ed.move_down(false);
    assert_eq!(ed.cursor(), CursorPosition::new(2, 12));
    ed.move_left(false);
    ed.move_up(false);
    assert_eq!(ed.cursor(), CursorPosition::new(1, 5));
}

#[test]
fn scrolling_follows_the_cursor() {
    let mut text = String::new();
    for i in 0..100 {
        text.push_str(&format!("line {}\n", i));
    }
    let mut ed = Editor::with_content(&text);
    ed.set_viewport_lines(10);
    ed.go_to_line(50);
    assert_eq!(ed.cursor(), CursorPosition::new(49, 0));
    assert_eq!(ed.scroll_line(), 49 - 10 + 3 + 1);
    ed.move_document_start(false);
    assert_eq!(ed.scroll_line(), 0);
    ed.page_down(false);
    assert_eq!(ed.cursor().line, 10);
    ed.page_up(false);
    assert_eq!(ed.cursor().line, 0);
}

#[test]
fn select_all_and_content_reset() {
    let mut ed = Editor::with_content("a\r\nbc");
    ed.select_all();
    assert_eq!(ed.selected_text(), Some("a\nbc".to_string()));
    ed.clear_selection();
    assert!(!ed.has_selection());
    ed.set_selection(Selection::new(CursorPosition::new(0, 0), CursorPosition::new(1, 1)));
    ed.backspace();
    assert_eq!(ed.content(), "c");
    ed.set_content("new\ntext");
    assert_eq!(ed.content(), "new\ntext");
    assert_eq!(ed.cursor(), CursorPosition::new(0, 0));
    assert_eq!(ed.char_count(), 8);
    ed.move_end(false);
    ed.move_home(false);
    assert_eq!(ed.cursor(), CursorPosition::new(0, 0));
    ed.move_word_right(false);
    ed.move_word_left(false);
    assert_eq!(ed.cursor(), CursorPosition::new(0, 0));
    assert_eq!(ed.buffer().len_lines(), 2);
    assert!(ed.state().undo_stack.is_empty());
}

#[test]
fn backspace_over_a_newline_lands_where_it_was() {
    let mut ed = Editor::with_content("ab\ncd");
    ed.set_cursor(CursorPosition::new(1, 0));
    ed.backspace();
    assert_eq!(ed.content(), "abcd");
    assert_eq!(ed.cursor(), CursorPosition::new(0, 2));
}
