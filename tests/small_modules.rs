use cosmic_notebook::config::{FileConfig, KeybindingsConfig, ThemePreference, UiConfig, ViewMode};
use cosmic_notebook::error::ClipboardError;
use cosmic_notebook::file_handler::io::{detect_encoding, FileEncoding, FileInfo};
use cosmic_notebook::file_handler::watcher::{EventDebouncer, WatchEvent, WatcherConfig};
use cosmic_notebook::markdown::export::{ExportFormat, HtmlExportOptions};
use cosmic_notebook::markdown::image::{ImageConfig, ImageFormat, ImageHandler};
use cosmic_notebook::state::{DocumentEncoding, FileEntry};
use cosmic_notebook::ui::status_bar::StatusBarInfo;
use cosmic_notebook::ui::tab_bar::TabContextAction;

#[test]
fn test_view_mode_default() {
    assert_eq!(ViewMode::default(), ViewMode::Edit);
}

#[test]
fn config_defaults() {
    let files = FileConfig::default();
    assert!(files.autosave_enabled);
    assert_eq!(files.ignored_directories.len(), 8);
    let ui = UiConfig::default();
    assert!(ui.sidebar_visible);
    assert_eq!(ui.theme, ThemePreference::System);
    assert_eq!(KeybindingsConfig::default().undo, "Ctrl+Z");
}

#[test]
fn test_detect_encoding_utf8() {
    let bytes = "Hello, world!".as_bytes();
    assert_eq!(detect_encoding(bytes), FileEncoding::Utf8);
}

#[test]
fn test_detect_encoding_utf8_bom() {
    let bytes = [0xEF, 0xBB, 0xBF, b'H', b'i'];
    assert_eq!(detect_encoding(&bytes), FileEncoding::Utf8Bom);
}

#[test]
fn test_detect_encoding_utf16_le() {
    let bytes = [0xFF, 0xFE, b'H', 0, b'i', 0];
    assert_eq!(detect_encoding(&bytes), FileEncoding::Utf16Le);
}

#[test]
fn test_detect_encoding_utf16_be() {
    let bytes = [0xFE, 0xFF, 0, b'H', 0, b'i'];
    assert_eq!(detect_encoding(&bytes), FileEncoding::Utf16Be);
}

#[test]
fn invalid_utf8_is_unknown() {
    assert_eq!(detect_encoding(&[0xC3, 0x28]), FileEncoding::Unknown);
    assert_eq!(detect_encoding("é".as_bytes()), FileEncoding::Utf8);
}

#[test]
fn file_info_sizes_and_age() {
    let mut info = FileInfo {
        path: "/test".to_string(),
        size_bytes: 100,
        modified: Some(1_000),
        created: None,
        is_readonly: false,
        exists: true,
    };
    assert!(!info.is_too_large());
    assert!(!info.should_warn_size());
    assert_eq!(info.modified_ago_at(1_030), "Just now");
    assert_eq!(info.modified_ago_at(1_000 + 125), "2 minutes ago");
    assert_eq!(info.modified_ago_at(1_000 + 7_200), "2 hours ago");
    assert_eq!(info.modified_ago_at(1_000 + 3 * 86_400), "3 days ago");
    assert_eq!(info.modified_ago_at(10), "Unknown");
    info.size_bytes = 2 * 1024 * 1024;
    assert!(info.should_warn_size());
    info.size_bytes = 11 * 1024 * 1024;
    assert!(info.is_too_large());
    info.modified = None;
    assert_eq!(info.modified_ago(), "Unknown");
}

#[test]
fn test_watcher_config_default() {
    let config = WatcherConfig::default();
    assert!(config.recursive);
    assert_eq!(config.debounce_ms, 500);
    assert!(config.watch_extensions.iter().any(|e| e == "md"));
    assert!(WatcherConfig::watch_all().watch_extensions.is_empty());
}

#[test]
fn debouncer_releases_quiet_events_and_keeps_the_newest_per_path() {
    let mut debouncer = EventDebouncer::new(100);
    debouncer.add_at(WatchEvent::FileModified("/test.md".to_string()), 1_000);
    debouncer.add_at(WatchEvent::FileCreated("/other.md".to_string()), 1_050);
    debouncer.add_at(WatchEvent::FileDeleted("/test.md".to_string()), 1_060);
    debouncer.add_at(WatchEvent::Error("x".to_string()), 1_060);
    assert!(debouncer.has_pending());
    assert!(debouncer.get_ready_at(1_100).is_empty());
    let ready = debouncer.get_ready_at(1_155);
    assert_eq!(ready.len(), 1);
    assert!(matches!(&ready[0], WatchEvent::FileCreated(p) if p == "/other.md"));
    let ready = debouncer.get_ready_at(1_160);
    assert!(matches!(&ready[0], WatchEvent::FileDeleted(p) if p == "/test.md"));
    assert!(!debouncer.has_pending());
    debouncer.add(WatchEvent::FileModified("/a.md".to_string()));
    debouncer.clear();
    assert!(!debouncer.has_pending());
}

#[test]
fn test_image_format_detection() {
    let png_data = [0x89, 0x50, 0x4E, 0x47, 0x0D, 0x0A, 0x1A, 0x0A, 0x00, 0x00];
    assert_eq!(ImageFormat::from_bytes(&png_data), Some(ImageFormat::Png));
    let jpeg_data = [0xFF, 0xD8, 0xFF, 0xE0, 0x00, 0x10, 0x4A, 0x46];
    assert_eq!(ImageFormat::from_bytes(&jpeg_data), Some(ImageFormat::Jpeg));
    let gif_data = b"GIF89a\x00\x00";
    assert_eq!(ImageFormat::from_bytes(gif_data), Some(ImageFormat::Gif));
}

#[test]
fn image_format_detection_webp_svg_and_short() {
    assert_eq!(ImageFormat::from_bytes(b"RIFF\x00\x00\x00\x00WEBPVP8 "), Some(ImageFormat::Webp));
    assert_eq!(ImageFormat::from_bytes(b"<?xml version=\"1.0\"?><svg/>"), Some(ImageFormat::Svg));
    assert_eq!(ImageFormat::from_bytes(b"  <svg width=\"1\">"), Some(ImageFormat::Svg));
    assert_eq!(ImageFormat::from_bytes(b"plain text here"), None);
    assert_eq!(ImageFormat::from_bytes(b"\x89PNG"), None);
    assert_eq!(ImageFormat::from_bytes(&[0xC3, 0x28, 0, 0, 0, 0, 0, 0, 0]), None);
}

#[test]
fn test_format_from_extension() {
    assert_eq!(ImageFormat::from_extension("png"), Some(ImageFormat::Png));
    assert_eq!(ImageFormat::from_extension("PNG"), Some(ImageFormat::Png));
    assert_eq!(ImageFormat::from_extension("jpg"), Some(ImageFormat::Jpeg));
    assert_eq!(ImageFormat::from_extension("jpeg"), Some(ImageFormat::Jpeg));
    assert_eq!(ImageFormat::from_extension("txt"), None);
    assert_eq!(ImageFormat::from_lowercase_extension("PNG"), None);
    assert_eq!(ImageFormat::Jpeg.extension(), "jpg");
}

#[test]
fn test_generate_markdown_link() {
    let handler = ImageHandler::new();
    let link = handler.generate_markdown_link("test.png", "Test Image");
    assert_eq!(link, "![Test Image](assets/test.png)");
}

#[test]
fn test_is_supported_image() {
    assert!(ImageHandler::is_supported_image("test.png"));
    assert!(ImageHandler::is_supported_image("test.jpg"));
    assert!(ImageHandler::is_supported_image("test.gif"));
    assert!(!ImageHandler::is_supported_image("test.txt"));
    assert!(!ImageHandler::is_supported_image("test.rs"));
}

#[test]
fn assets_dir_sits_beside_the_document() {
    let handler = ImageHandler::with_config(ImageConfig {
        assets_dir_name: "img".to_string(),
        filename_prefix: "pic".to_string(),
        copy_images: false,
    });
    assert_eq!(handler.get_assets_dir("/notes/today.md"), "/notes/img");
    assert_eq!(ImageHandler::default().get_assets_dir("today.md"), "assets");
}

#[test]
fn names_and_labels() {
    assert_eq!(ExportFormat::Html.extension(), "html");
    assert_eq!(ExportFormat::Html.display_name(), "HTML");
    assert!(HtmlExportOptions::default().include_styles);
    assert_eq!(DocumentEncoding::Utf16Le.display_name(), "UTF-16 LE");
    assert_eq!(TabContextAction::CloseToRight.label(), "Close to the Right");
    assert_eq!(ClipboardError::Empty.user_message(), "The clipboard is empty.");
    assert_eq!(
        ClipboardError::ReadError("busy".to_string()).user_message(),
        "Could not read from clipboard: busy"
    );
}

#[test]
fn status_bar_texts() {
    let mut info = StatusBarInfo::new();
    assert_eq!(info.encoding, "UTF-8");
    assert_eq!(info.cursor_display(), "Ln 1, Col 1");
    assert_eq!(info.selection_display(), None);
    info.has_selection = true;
    assert_eq!(info.selection_display(), Some("Selection".to_string()));
    info.selection_chars = Some(12);
    assert_eq!(info.selection_display(), Some("12 chars selected".to_string()));
    info.selection_lines = Some(3);
    assert_eq!(info.selection_display(), Some("12 chars, 3 lines selected".to_string()));
    info.line_count = 40;
    info.word_count = 250;
    assert_eq!(info.stats_display(), "40 lines, 250 words");
}

#[test]
fn file_entry_parts() {
    let entry = FileEntry::new("/docs/notes.md".to_string(), 1, Some(0), false, None, 42);
    assert_eq!(entry.name, "notes.md");
    assert!(entry.is_markdown());
    assert!(!entry.is_hidden());
    assert_eq!(entry.extension(), Some("md".to_string()));
    let dir = FileEntry::new("/docs/.git".to_string(), 1, Some(0), true, None, 42);
    assert!(dir.is_hidden());
    assert_eq!(dir.size_bytes, 0);
    assert!(!dir.is_markdown());
}

#[test]
fn language_actions_and_find_bar() {
    cosmic_notebook::i18n::init();
    assert_eq!(cosmic_notebook::i18n::current_language(), "en");
    assert_ne!(cosmic_notebook::menu::Action::Undo, cosmic_notebook::menu::Action::Redo);
    let bar = cosmic_notebook::ui::find_bar::FindBarState {
        is_open: true,
        show_replace: false,
        query: "x",
        replace_text: "",
        case_sensitive: false,
        whole_word: false,
        use_regex: false,
        result_count: 0,
        current_result: None,
    };
    assert_eq!(bar.query, "x");
}
