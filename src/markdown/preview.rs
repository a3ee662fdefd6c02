//! Preview data: rendered element types, styled text, view-mode toggles and
//! HTML export settings (the Markdown rendering itself is done by the
//! application).

use vstd::prelude::*;
use crate::config::ViewMode;
use crate::utils::push_char;

verus! {

/// View-mode toggles of the editor and preview panes
pub trait ViewModeExt {
    /// Toggle between Edit and Preview modes
    fn toggle_preview(&self) -> ViewMode;
    /// Toggle split view
    fn toggle_split(&self) -> ViewMode;
    /// Check if preview is visible
    fn shows_preview(&self) -> bool;
    /// Check if editor is visible
    fn shows_editor(&self) -> bool;
}

impl ViewModeExt for ViewMode {
    /// Edit goes to preview; preview and split go back to edit.
    fn toggle_preview(&self) -> (r: ViewMode)
        ensures
            r == (match self {
                ViewMode::Edit => ViewMode::Preview,
                ViewMode::Preview => ViewMode::Edit,
                ViewMode::Split => ViewMode::Edit,
            }),
    {
        match self {
            ViewMode::Edit => ViewMode::Preview,
            ViewMode::Preview => ViewMode::Edit,
            ViewMode::Split => ViewMode::Edit,
        }
    }

    fn toggle_split(&self) -> (r: ViewMode)
        ensures
            r == (if *self == ViewMode::Split { ViewMode::Edit } else { ViewMode::Split }),
    {
        match self {
            ViewMode::Split => ViewMode::Edit,
            _ => ViewMode::Split,
        }
    }

    fn shows_preview(&self) -> (r: bool)
        ensures
            r == (*self == ViewMode::Preview || *self == ViewMode::Split),
    {
        match self {
            ViewMode::Preview | ViewMode::Split => true,
            ViewMode::Edit => false,
        }
    }

    fn shows_editor(&self) -> (r: bool)
        ensures
            r == (*self == ViewMode::Edit || *self == ViewMode::Split),
    {
        match self {
            ViewMode::Edit | ViewMode::Split => true,
            ViewMode::Preview => false,
        }
    }
}

/// Styled text with formatting
#[derive(Debug, Clone)]
pub struct StyledText {
    pub text: String,
    pub bold: bool,
    pub italic: bool,
    pub strikethrough: bool,
    pub code: bool,
    pub link: Option<String>,
}

impl StyledText {
    /// Text with no styling
    pub fn plain(text: String) -> (r: Self)
        ensures
            r == (StyledText {
                text,
                bold: false,
                italic: false,
                strikethrough: false,
                code: false,
                link: None,
            }),
    {
        StyledText { text, bold: false, italic: false, strikethrough: false, code: false, link: None }
    }

    pub fn with_bold(self) -> (r: Self)
        ensures
            r == (StyledText { bold: true, ..self }),
    {
        StyledText { bold: true, ..self }
    }

    pub fn with_italic(self) -> (r: Self)
        ensures
            r == (StyledText { italic: true, ..self }),
    {
        StyledText { italic: true, ..self }
    }

    pub fn with_strikethrough(self) -> (r: Self)
        ensures
            r == (StyledText { strikethrough: true, ..self }),
    {
        StyledText { strikethrough: true, ..self }
    }

    pub fn with_code(self) -> (r: Self)
        ensures
            r == (StyledText { code: true, ..self }),
    {
        StyledText { code: true, ..self }
    }

    pub fn with_link(self, url: String) -> (r: Self)
        ensures
            r == (StyledText { link: Some(url), ..self }),
    {
        StyledText { link: Some(url), ..self }
    }
}

/// Table column alignment
#[derive(Debug, Clone, Copy, PartialEq, Eq, Structural)]
pub enum TableAlignment {
    /// No alignment given
    Unaligned,
    Left,
    Center,
    Right,
}

impl Default for TableAlignment {
    fn default() -> (r: Self)
        ensures
            r == TableAlignment::Unaligned,
    {
        TableAlignment::Unaligned
    }
}

/// A rendered element that can be displayed in the preview pane
#[derive(Debug)]
pub enum PreviewElement {
    Paragraph(Vec<StyledText>),
    Heading { level: u8, content: Vec<StyledText> },
    CodeBlock { language: Option<String>, code: String },
    InlineCode(String),
    Blockquote(Vec<PreviewElement>),
    UnorderedList(Vec<ListItem>),
    OrderedList { start: u64, items: Vec<ListItem> },
    TaskList(Vec<TaskItem>),
    Table {
        headers: Vec<Vec<StyledText>>,
        rows: Vec<Vec<Vec<StyledText>>>,
        alignments: Vec<TableAlignment>,
    },
    HorizontalRule,
    Image { alt: String, url: String, title: Option<String> },
    Link { text: Vec<StyledText>, url: String, title: Option<String> },
    Html(String),
    FootnoteDefinition { label: String, content: Vec<PreviewElement> },
    SoftBreak,
    HardBreak,
}

/// A list item
#[derive(Debug)]
pub struct ListItem {
    pub content: Vec<PreviewElement>,
}

/// A task list item
#[derive(Debug)]
pub struct TaskItem {
    pub checked: bool,
    pub content: Vec<PreviewElement>,
}

/// `s` with the five HTML-special characters written as entities.
pub open spec fn html_escaped(s: Seq<char>) -> Seq<char>
    decreases s.len(),
{
    if s.len() == 0 {
        s
    } else {
        let c = s.last();
        html_escaped(s.drop_last()) + if c == '&' {
            "&amp;"@
        } else if c == '<' {
            "&lt;"@
        } else if c == '>' {
            "&gt;"@
        } else if c == '"' {
            "&quot;"@
        } else if c == '\'' {
            "&#39;"@
        } else {
            seq![c]
        }
    }
}

/// Exporter of Markdown documents to standalone HTML
pub struct HtmlExporter {
    include_styles: bool,
    embed_images: bool,
}

impl HtmlExporter {
    /// Whether the page carries its styles.
    pub closed spec fn styles_included(&self) -> bool {
        self.include_styles
    }

    /// Whether images are embedded.
    pub closed spec fn images_embedded(&self) -> bool {
        self.embed_images
    }

    pub fn new() -> (r: Self)
        ensures
            r.styles_included(),
            !r.images_embedded(),
    {
        HtmlExporter { include_styles: true, embed_images: false }
    }

    pub fn with_embedded_styles(self, enabled: bool) -> (r: Self)
        ensures
            r.styles_included() == enabled,
            r.images_embedded() == self.images_embedded(),
    {
        HtmlExporter { include_styles: enabled, ..self }
    }

    pub fn with_embedded_images(self, embed: bool) -> (r: Self)
        ensures
            r.images_embedded() == embed,
            r.styles_included() == self.styles_included(),
    {
        HtmlExporter { embed_images: embed, ..self }
    }

    /// Escape the HTML-special characters of a text
    pub fn escape_html(text: &str) -> (r: String)
        ensures
            r@ == html_escaped(text@),
    {
        let n = text.unicode_len();
        let mut out = String::new();
        let mut i: usize = 0;
        while i < n
            invariant
                n == text@.len(),
                i <= n,
                out@ == html_escaped(text@.subrange(0, i as int)),
            decreases n - i,
        {
            let c = text.get_char(i);
            assert(text@.subrange(0, i + 1).drop_last() =~= text@.subrange(0, i as int));
            if c == '&' {
                out = out.concat("&amp;");
            } else if c == '<' {
                out = out.concat("&lt;");
            } else if c == '>' {
                out = out.concat("&gt;");
            } else if c == '"' {
                out = out.concat("&quot;");
            } else if c == '\'' {
                out = out.concat("&#39;");
            } else {
                push_char(&mut out, c);
                assert(out@ =~= html_escaped(text@.subrange(0, i as int)) + seq![c]);
            }
            i = i + 1;
        }
        assert(text@.subrange(0, n as int) =~= text@);
        out
    }
}

impl Default for HtmlExporter {
    fn default() -> (r: Self)
        ensures
            r.styles_included(),
    {
        HtmlExporter::new()
    }
}

} // verus!
