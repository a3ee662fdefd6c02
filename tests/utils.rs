use cosmic_notebook::utils::path;
use cosmic_notebook::utils::text;
use cosmic_notebook::utils::Debouncer;

#[test]
fn test_debouncer() {
    let mut debouncer = Debouncer::new(100);
    assert!(debouncer.should_trigger());
    assert!(!debouncer.should_trigger());
}

#[test]
fn debouncer_at_given_times() {
    let mut debouncer = Debouncer::new(100);
    assert!(debouncer.should_trigger_at(1_000));
    assert!(!debouncer.should_trigger_at(1_099));
    assert!(debouncer.should_trigger_at(1_100));
    assert!(!debouncer.should_trigger_at(50));
    debouncer.reset();
    assert!(debouncer.should_trigger_at(50));
}

#[test]
fn test_is_markdown() {
    assert!(path::is_markdown("test.md"));
    assert!(path::is_markdown("test.markdown"));
    assert!(!path::is_markdown("test.txt"));
}

#[test]
fn path_parts() {
    assert_eq!(path::file_stem("/a/b/notes.md"), Some("notes".to_string()));
    assert_eq!(path::extension("/a/b/notes.md"), Some("md".to_string()));
    assert_eq!(path::extension("/a/b/README"), None);
    assert_eq!(path::relative_to("/a/b/c.md", "/a"), Some("b/c.md".to_string()));
    assert_eq!(path::relative_to("/x/c.md", "/a"), None);
    assert!(path::is_markdown_extension("mkd"));
    assert!(!path::is_markdown_extension("MD"));
}

#[test]
fn mod_test_word_count() {
    assert_eq!(text::word_count("hello world"), 2);
    assert_eq!(text::word_count("  "), 0);
    assert_eq!(text::word_count("one"), 1);
}

#[test]
fn test_truncate() {
    assert_eq!(text::truncate("hello", 10), "hello");
    assert_eq!(text::truncate("hello world", 8), "hello...");
}

#[test]
fn truncate_edges_and_line_helpers() {
    assert_eq!(text::truncate("hello world", 3), "...");
    assert_eq!(text::truncate("hello", 5), "hello");
    assert_eq!(text::line_count(""), 0);
    assert_eq!(text::line_count("a\nb"), 2);
    assert_eq!(text::line_count("a\nb\n"), 2);
    assert_eq!(text::line_at_offset("a\nb\nc", 4), Some(2));
    assert_eq!(text::line_at_offset("a\nb\nc", 2), Some(1));
    assert_eq!(text::line_at_offset("abc", 4), None);
}

#[test]
fn truncate_cuts_at_a_character_boundary() {
    assert_eq!(text::truncate("héllo world", 5), "h...");
    assert_eq!(text::truncate("héllo world", 6), "hé...");
}
