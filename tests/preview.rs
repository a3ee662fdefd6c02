use cosmic_notebook::config::ViewMode;
use cosmic_notebook::markdown::preview::{HtmlExporter, StyledText, TableAlignment, ViewModeExt};

#[test]
fn view_mode_toggles() {
    assert_eq!(ViewMode::Edit.toggle_preview(), ViewMode::Preview);
    assert_eq!(ViewMode::Split.toggle_preview(), ViewMode::Edit);
    assert_eq!(ViewMode::Edit.toggle_split(), ViewMode::Split);
    assert_eq!(ViewMode::Split.toggle_split(), ViewMode::Edit);
    assert!(ViewMode::Split.shows_preview() && ViewMode::Split.shows_editor());
    assert!(!ViewMode::Preview.shows_editor());
}

#[test]
fn styled_text_builders() {
    let t = StyledText::plain("x".to_string()).with_bold().with_italic().with_code().with_strikethrough().with_link("u".to_string());
    assert!(t.bold && t.italic && t.code && t.strikethrough);
    assert_eq!(t.link, Some("u".to_string()));
    assert_eq!(TableAlignment::default(), TableAlignment::Unaligned);
}

#[test]
fn html_escaping() {
    assert_eq!(HtmlExporter::escape_html("a<b>&\"c'"), "a&lt;b&gt;&amp;&quot;c&#39;");
    let _ = HtmlExporter::new().with_embedded_styles(false).with_embedded_images(true);
}
