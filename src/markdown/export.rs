//! Export formats and options (the rendering itself is done by the
//! application).

use vstd::prelude::*;

verus! {

/// Export-related errors
#[derive(Debug, Clone)]
pub enum ExportError {
    /// An I/O error, with its message
    Io(String),
    /// Invalid export path
    InvalidPath,
    /// Export format not supported
    UnsupportedFormat(String),
}

/// Export format options
#[derive(Debug, Clone, Copy, PartialEq, Eq, Structural)]
pub enum ExportFormat {
    Html,
}

impl ExportFormat {
    /// Get the file extension for the format
    pub fn extension(&self) -> (r: &'static str)
        ensures
            r@ == "html"@,
    {
        match self {
            ExportFormat::Html => "html",
        }
    }

    /// Get display name for the format
    pub fn display_name(&self) -> (r: &'static str)
        ensures
            r@ == "HTML"@,
    {
        match self {
            ExportFormat::Html => "HTML",
        }
    }
}

/// Options for HTML export
#[derive(Debug, Clone)]
pub struct HtmlExportOptions {
    /// Include CSS styles inline
    pub include_styles: bool,
    /// Embed images as base64 data URIs
    pub embed_images: bool,
    /// Document title
    pub title: Option<String>,
    /// Use dark mode styles
    pub dark_mode: bool,
    /// Custom CSS to include
    pub custom_css: Option<String>,
    /// Include table of contents
    pub include_toc: bool,
}

impl Default for HtmlExportOptions {
    fn default() -> (r: Self)
        ensures
            r.include_styles,
            !r.embed_images,
            r.title is None,
            !r.dark_mode,
            r.custom_css is None,
            !r.include_toc,
    {
        HtmlExportOptions {
            include_styles: true,
            embed_images: false,
            title: None,
            dark_mode: false,
            custom_css: None,
            include_toc: false,
        }
    }
}

} // verus!
