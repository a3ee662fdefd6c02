use cosmic_notebook::editor::buffer::TextBuffer;
use cosmic_notebook::editor::cursor::{calculate_scroll, CursorController};
use cosmic_notebook::state::CursorPosition;

fn make_buffer() -> TextBuffer {
    TextBuffer::from_str("Line one\nLine two\nLine three\nLine four")
}

#[test]
fn test_move_left() {
    let buf = make_buffer();
    let pos = CursorController::move_left(&buf, CursorPosition::new(0, 5));
    assert_eq!(pos, CursorPosition::new(0, 4));
    let pos = CursorController::move_left(&buf, CursorPosition::new(1, 0));
    assert_eq!(pos, CursorPosition::new(0, 8));
    let pos = CursorController::move_left(&buf, CursorPosition::new(0, 0));
    assert_eq!(pos, CursorPosition::new(0, 0));
}

#[test]
fn test_move_right() {
    let buf = make_buffer();
    let pos = CursorController::move_right(&buf, CursorPosition::new(0, 5));
    assert_eq!(pos, CursorPosition::new(0, 6));
    let pos = CursorController::move_right(&buf, CursorPosition::new(0, 8));
    assert_eq!(pos, CursorPosition::new(1, 0));
}

#[test]
fn test_move_up_down() {
    let buf = make_buffer();

    let (pos, pref) = CursorController::move_down(&buf, CursorPosition::new(0, 5), None);
    assert_eq!(pos, CursorPosition::new(1, 5));
    assert_eq!(pref, Some(5));

    let (pos, _) = CursorController::move_up(&buf, CursorPosition::new(1, 5), Some(5));
    assert_eq!(pos, CursorPosition::new(0, 5));

    let buf2 = TextBuffer::from_str("Long line here\nShort\nAnother long line");
    let (pos, pref) = CursorController::move_down(&buf2, CursorPosition::new(0, 12), None);
    assert_eq!(pos.line, 1);
    assert_eq!(pos.column, 5);
    assert_eq!(pref, Some(12));

    let (pos, _) = CursorController::move_down(&buf2, pos, pref);
    assert_eq!(pos.line, 2);
    assert_eq!(pos.column, 12);
}

#[test]
fn test_move_home_end() {
    let buf = TextBuffer::from_str("  Hello world");
    let pos = CursorController::move_home(&buf, CursorPosition::new(0, 8));
    assert_eq!(pos, CursorPosition::new(0, 0));
    let pos = CursorController::move_home(&buf, pos);
    assert_eq!(pos, CursorPosition::new(0, 2));
    let pos = CursorController::move_home(&buf, pos);
    assert_eq!(pos, CursorPosition::new(0, 0));
    let pos = CursorController::move_end(&buf, CursorPosition::new(0, 0));
    assert_eq!(pos, CursorPosition::new(0, 13));
}

#[test]
fn test_go_to_line() {
    let buf = make_buffer();
    let pos = CursorController::go_to_line(&buf, 3);
    assert_eq!(pos, CursorPosition::new(2, 0));
    let pos = CursorController::go_to_line(&buf, 100);
    assert_eq!(pos.line, 3);
}

#[test]
fn test_calculate_scroll() {
    assert_eq!(calculate_scroll(10, 5, 20, 3), 5);
    assert_eq!(calculate_scroll(2, 10, 20, 3), 0);
    assert_eq!(calculate_scroll(30, 5, 20, 3), 14);
}

#[test]
fn scroll_margin_is_at_most_half_the_viewport() {
    assert_eq!(calculate_scroll(5, 5, 4, 10), 3);
    assert_eq!(calculate_scroll(1, 5, 20, 3), 0);
    assert_eq!(calculate_scroll(7, 5, 4, 0), 5);
    assert_eq!(calculate_scroll(9, 5, 4, 0), 6);
}

#[test]
fn sticky_column_through_a_short_line() {
    let buf = TextBuffer::from_str("abcdefghijklmn\nabcde\nabcdefghijklmnopqr");
    let (pos, pref) = CursorController::move_down(&buf, CursorPosition::new(0, 12), None);
    assert_eq!(pos, CursorPosition::new(1, 5));
    assert_eq!(pref, Some(12));
    let (pos, pref) = CursorController::move_down(&buf, pos, pref);
    assert_eq!(pos, CursorPosition::new(2, 12));
    assert_eq!(pref, Some(12));
}

#[test]
fn moves_at_document_edges_and_pages() {
    let buf = make_buffer();
    let end = CursorController::move_document_end(&buf);
    assert_eq!(end, CursorPosition::new(3, 9));
    assert_eq!(CursorController::move_right(&buf, end), end);
    assert_eq!(CursorController::move_document_start(), CursorPosition::new(0, 0));
    let (pos, pref) = CursorController::move_page_down(&buf, CursorPosition::new(0, 9), 2, None);
    assert_eq!(pos, CursorPosition::new(2, 9));
    assert_eq!(pref, Some(9));
    let (pos, _) = CursorController::move_page_down(&buf, pos, 10, pref);
    assert_eq!(pos, CursorPosition::new(3, 9));
    let (pos, _) = CursorController::move_page_up(&buf, CursorPosition::new(3, 10), 10, None);
    assert_eq!(pos, CursorPosition::new(0, 8));
    let (up, pref) = CursorController::move_up(&buf, CursorPosition::new(0, 3), Some(7));
    assert_eq!(up, CursorPosition::new(0, 3));
    assert_eq!(pref, Some(7));
}

#[test]
fn clamp_and_word_moves() {
    let buf = make_buffer();
    assert_eq!(CursorController::clamp(&buf, CursorPosition::new(99, 99)), CursorPosition::new(3, 9));
    assert_eq!(CursorController::clamp(&buf, CursorPosition::new(1, 99)), CursorPosition::new(1, 8));
    assert_eq!(CursorController::move_word_right(&buf, CursorPosition::new(0, 0)), CursorPosition::new(0, 5));
    assert_eq!(CursorController::move_word_left(&buf, CursorPosition::new(1, 0)), CursorPosition::new(0, 8));
    assert_eq!(CursorController::go_to_line(&buf, 0), CursorPosition::new(0, 0));
}
