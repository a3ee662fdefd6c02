use cosmic_notebook::editor::buffer::{LineEnding, TextBuffer};

#[test]
fn test_empty_buffer() {
    let buf = TextBuffer::new();
    assert!(buf.is_empty());
    assert_eq!(buf.len_chars(), 0);
    assert_eq!(buf.len_lines(), 1);
}

#[test]
fn test_from_str() {
    let buf = TextBuffer::from_str("Hello\nWorld");
    assert_eq!(buf.len_lines(), 2);
    assert_eq!(buf.line(0), Some("Hello\n".to_string()));
    assert_eq!(buf.line(1), Some("World".to_string()));
}

#[test]
fn test_line_ending_detection() {
    let lf_buf = TextBuffer::from_str("Hello\nWorld");
    assert_eq!(lf_buf.line_ending(), LineEnding::Lf);

    let crlf_buf = TextBuffer::from_str("Hello\r\nWorld");
    assert_eq!(crlf_buf.line_ending(), LineEnding::Crlf);
}

#[test]
fn test_insert() {
    let mut buf = TextBuffer::from_str("Hello World");
    buf.insert(5, ",");
    assert_eq!(buf.to_string(), "Hello, World");
}

#[test]
fn test_delete() {
    let mut buf = TextBuffer::from_str("Hello, World");
    buf.delete(5..7);
    assert_eq!(buf.to_string(), "HelloWorld");
}

#[test]
fn test_line_col_conversion() {
    let buf = TextBuffer::from_str("Line 1\nLine 2\nLine 3");

    assert_eq!(buf.line_col_to_char(0, 0), Some(0));
    assert_eq!(buf.line_col_to_char(1, 0), Some(7));
    assert_eq!(buf.line_col_to_char(1, 4), Some(11));

    assert_eq!(buf.char_to_line_col(0), (0, 0));
    assert_eq!(buf.char_to_line_col(7), (1, 0));
    assert_eq!(buf.char_to_line_col(11), (1, 4));
}

#[test]
fn test_word_boundaries() {
    let buf = TextBuffer::from_str("Hello world  test");

    assert_eq!(buf.next_word_boundary(0), 6);
    assert_eq!(buf.next_word_boundary(6), 13);
    assert_eq!(buf.prev_word_boundary(17), 13);
    assert_eq!(buf.prev_word_boundary(6), 0);
}

#[test]
fn test_word_at() {
    let buf = TextBuffer::from_str("Hello world");

    assert_eq!(buf.word_at(2), Some((0, 5)));
    assert_eq!(buf.word_at(7), Some((6, 11)));
    assert_eq!(buf.word_at(5), None);
}

#[test]
fn buffer_test_word_count() {
    let buf = TextBuffer::from_str("Hello world, this is a test.");
    assert_eq!(buf.word_count(), 6);
}

#[test]
fn test_version_increments() {
    let mut buf = TextBuffer::new();
    assert_eq!(buf.version(), 0);

    buf.insert(0, "test");
    assert_eq!(buf.version(), 1);

    buf.delete(0..2);
    assert_eq!(buf.version(), 2);
}

#[test]
fn round_trip_keeps_text_without_carriage_returns() {
    for s in ["", "a", "one\ntwo\n", "\n\n\n", "tab\there\nünï\ncode"] {
        assert_eq!(TextBuffer::from_str(s).to_string(), s);
    }
}

#[test]
fn crlf_is_normalized_inside_and_restored_on_output() {
    let buf = TextBuffer::from_str("a\r\nb\r\nc");
    assert_eq!(buf.len_chars(), 5);
    assert_eq!(buf.len_lines(), 3);
    assert_eq!(buf.line(0), Some("a\n".to_string()));
    assert_eq!(buf.to_string(), "a\r\nb\r\nc");
    assert_eq!(buf.to_string_with_ending(LineEnding::Lf), "a\nb\nc");
}

#[test]
fn insert_then_delete_restores_text_and_counts_two_versions() {
    let mut buf = TextBuffer::from_str("hello\nworld");
    let before = buf.to_string();
    buf.insert(3, "XYZ\n");
    assert_eq!(buf.to_string(), "helXYZ\nlo\nworld");
    buf.delete(3..7);
    assert_eq!(buf.to_string(), before);
    assert_eq!(buf.version(), 2);
    assert!(buf.is_modified());
}

#[test]
fn conversions_clamp_out_of_range_input() {
    let empty = TextBuffer::new();
    assert_eq!(empty.line_col_to_char(0, 0), Some(0));
    assert_eq!(empty.char_to_line_col(0), (0, 0));
    assert_eq!(empty.char_to_line_col(usize::MAX), (0, 0));
    assert_eq!(empty.line_col_to_char(usize::MAX, usize::MAX), None);

    let buf = TextBuffer::from_str("ab\ncdef\n");
    assert_eq!(buf.line_col_to_char(0, usize::MAX), Some(2));
    assert_eq!(buf.line_col_to_char(1, 100), Some(7));
    assert_eq!(buf.line_col_to_char(2, 5), Some(8));
    assert_eq!(buf.line_col_to_char(3, 0), None);
    assert_eq!(buf.char_to_line_col(usize::MAX), (2, 0));
    assert_eq!(buf.char_to_line_col(5), (1, 2));
}

#[test]
fn insert_index_past_end_appends() {
    let mut buf = TextBuffer::from_str("abc");
    buf.insert(100, "!");
    assert_eq!(buf.to_string(), "abc!");
    buf.delete(10..20);
    assert_eq!(buf.version(), 1);
    buf.delete(2..1);
    assert_eq!(buf.to_string(), "abc!");
}

#[test]
fn lines_and_line_lengths() {
    let buf = TextBuffer::from_str("  one\n\nthree");
    assert_eq!(buf.line_len(0), Some(5));
    assert_eq!(buf.line_len(1), Some(0));
    assert_eq!(buf.line_len(2), Some(5));
    assert_eq!(buf.line_len(3), None);
    assert_eq!(buf.line_without_newline(0), Some("  one".to_string()));
    assert_eq!(buf.line(3), None);
    assert_eq!(buf.char_at(2), Some('o'));
    assert_eq!(buf.char_at(12), None);
    assert_eq!(buf.slice(2, 5), "one");
    assert_eq!(buf.slice(5, 2), "");
}

#[test]
fn replace_set_content_and_saving() {
    let mut buf = TextBuffer::from_str("hello world");
    buf.replace(0..5, "goodbye");
    assert_eq!(buf.to_string(), "goodbye world");
    assert!(buf.is_modified());
    buf.mark_saved();
    assert!(!buf.is_modified());
    buf.set_content("x\r\ny");
    assert_eq!(buf.line_ending(), LineEnding::Crlf);
    assert_eq!(buf.len_chars(), 3);
    assert!(buf.is_modified());
    buf.insert_at(1, 1, "z");
    assert_eq!(buf.to_string(), "x\r\nyz");
    buf.insert_char(0, 'w');
    buf.delete_by_line_col(0, 0, 0, 1);
    assert_eq!(buf.to_string_with_ending(LineEnding::Lf), "x\nyz");
}

#[test]
fn line_ending_names() {
    assert_eq!(LineEnding::Lf.as_str(), "\n");
    assert_eq!(LineEnding::Crlf.as_str(), "\r\n");
    assert_eq!(LineEnding::Lf.display_name(), "LF");
    assert_eq!(LineEnding::Crlf.display_name(), "CRLF");
    assert_eq!(LineEnding::detect("a\rb\n"), LineEnding::Lf);
    assert_eq!(LineEnding::default(), LineEnding::Lf);
}

#[test]
fn word_motion_treats_newline_as_a_stop() {
    let buf = TextBuffer::from_str("foo  \nbar_baz qux");
    assert_eq!(buf.next_word_boundary(0), 5);
    assert_eq!(buf.word_at(8), Some((6, 13)));
    assert_eq!(buf.prev_word_boundary(6), 3);
    assert_eq!(buf.next_word_boundary(100), 17);
}

#[test]
fn rope_positions_match_the_buffer() {
    let buf = TextBuffer::from_str("ab\ncdef\n");
    let rope = buf.rope();
    assert_eq!(cosmic_notebook::editor::buffer::line_col_to_char(rope, 1, 99), Some(7));
    assert_eq!(cosmic_notebook::editor::buffer::line_col_to_char(rope, 0, 1), Some(1));
    assert_eq!(cosmic_notebook::editor::buffer::line_col_to_char(rope, 3, 0), None);
}

#[test]
fn previous_boundary_clamps_offsets_past_the_end() {
    let buf = TextBuffer::from_str("Hello world  test");
    assert_eq!(buf.prev_word_boundary(1000), 13);
    assert_eq!(buf.prev_word_boundary(0), 0);
}

#[test]
fn strict_crlf_text_round_trips() {
    let s = "one\r\ntwo\r\n\r\nthree";
    let buf = TextBuffer::from_str(s);
    assert_eq!(buf.line_ending(), LineEnding::Crlf);
    assert_eq!(buf.len_lines(), 4);
    assert_eq!(buf.to_string(), s);
}
