//! Image formats, image links and the assets directory of a document (the
//! copying and writing of image files is done by the application).
//!
//! Paths are carried as text.

use vstd::prelude::*;
use vstd::utf8::{encode_utf8, valid_utf8};
use crate::utils::path::{extension_of, joined, parent_of, path_extension, path_join, path_parent};
use crate::utils::text::{contains_text, has_substring, lower_of, lowercase};
use crate::file_handler::io::utf8_text;

verus! {

/// Errors that can occur during image handling
#[derive(Debug, Clone)]
pub enum ImageError {
    /// An I/O error, with its message
    Io(String),
    InvalidFormat,
    NoDocumentPath,
    AssetsDirError(String),
    EmptyData,
    Clipboard(String),
}

/// Configuration for image handling
#[derive(Debug, Clone)]
pub struct ImageConfig {
    /// Name of the assets directory (relative to document)
    pub assets_dir_name: String,
    /// Prefix for generated image filenames
    pub filename_prefix: String,
    /// Whether to copy images (true) or link to original (false)
    pub copy_images: bool,
}

impl Default for ImageConfig {
    fn default() -> (r: Self)
        ensures
            r.assets_dir_name@ == "assets"@,
            r.filename_prefix@ == "image"@,
            r.copy_images,
    {
        ImageConfig {
            assets_dir_name: String::from_str("assets"),
            filename_prefix: String::from_str("image"),
            copy_images: true,
        }
    }
}

/// Supported image formats
#[derive(Debug, Clone, Copy, PartialEq, Eq, Structural)]
pub enum ImageFormat {
    Png,
    Jpeg,
    Gif,
    Webp,
    Svg,
}

/// The format named by a lower-case extension.
pub open spec fn format_of_extension(e: Seq<char>) -> Option<ImageFormat> {
    if e == "png"@ {
        Some(ImageFormat::Png)
    } else if e == "jpg"@ || e == "jpeg"@ {
        Some(ImageFormat::Jpeg)
    } else if e == "gif"@ {
        Some(ImageFormat::Gif)
    } else if e == "webp"@ {
        Some(ImageFormat::Webp)
    } else if e == "svg"@ {
        Some(ImageFormat::Svg)
    } else {
        None
    }
}

/// `b` begins with `p`.
pub open spec fn starts_with_bytes(b: Seq<u8>, p: Seq<u8>) -> bool {
    b.len() >= p.len() && b.subrange(0, p.len() as int) == p
}

/// The format that an image's first bytes show: the signatures of PNG,
/// JPEG, GIF and WebP, or an SVG/XML opening in the first 256 bytes when
/// they are valid UTF-8; nothing for fewer than 8 bytes.
pub open spec fn format_of_bytes(b: Seq<u8>) -> Option<ImageFormat> {
    let head = b.subrange(0, if b.len() < 256 { b.len() as int } else { 256 });
    if b.len() < 8 {
        None
    } else if starts_with_bytes(b, seq![0x89u8, 0x50u8, 0x4Eu8, 0x47u8, 0x0Du8, 0x0Au8, 0x1Au8, 0x0Au8]) {
        Some(ImageFormat::Png)
    } else if starts_with_bytes(b, seq![0xFFu8, 0xD8u8, 0xFFu8]) {
        Some(ImageFormat::Jpeg)
    } else if starts_with_bytes(b, seq![71u8, 73u8, 70u8, 56u8, 55u8, 97u8]) || starts_with_bytes(
        b,
        seq![71u8, 73u8, 70u8, 56u8, 57u8, 97u8],
    ) {
        Some(ImageFormat::Gif)
    } else if starts_with_bytes(b, seq![82u8, 73u8, 70u8, 70u8]) && b.len() >= 12
        && b.subrange(8, 12) == seq![87u8, 69u8, 66u8, 80u8] {
        Some(ImageFormat::Webp)
    } else if valid_utf8(head) && (exists|t: Seq<char>|
        encode_utf8(t) == head && (has_substring(t, "<svg"@) || has_substring(t, "<?xml"@))) {
        Some(ImageFormat::Svg)
    } else {
        None
    }
}

/// Whether `data` begins with the bytes of `p`.
fn starts_with(data: &[u8], p: &[u8]) -> (r: bool)
    ensures
        r == starts_with_bytes(data@, p@),
{
    if data.len() < p.len() {
        return false;
    }
    let mut i: usize = 0;
    while i < p.len()
        invariant
            i <= p@.len() <= data@.len(),
            forall|j: int| 0 <= j < i ==> data@[j] == p@[j],
        decreases p@.len() - i,
    {
        if data[i] != p[i] {
            assert(data@.subrange(0, p@.len() as int)[i as int] != p@[i as int]);
            return false;
        }
        i = i + 1;
    }
    assert(data@.subrange(0, p@.len() as int) =~= p@);
    true
}

impl ImageFormat {
    /// Get file extension for the format
    pub fn extension(&self) -> (r: &'static str)
        ensures
            r@ == (match self {
                ImageFormat::Png => "png"@,
                ImageFormat::Jpeg => "jpg"@,
                ImageFormat::Gif => "gif"@,
                ImageFormat::Webp => "webp"@,
                ImageFormat::Svg => "svg"@,
            }),
    {
        match self {
            ImageFormat::Png => "png",
            ImageFormat::Jpeg => "jpg",
            ImageFormat::Gif => "gif",
            ImageFormat::Webp => "webp",
            ImageFormat::Svg => "svg",
        }
    }

    /// Detect format from magic bytes
    pub fn from_bytes(data: &[u8]) -> (r: Option<Self>)
        ensures
            r == format_of_bytes(data@),
    {
        if data.len() < 8 {
            return None;
        }
        let png: [u8; 8] = [0x89, 0x50, 0x4E, 0x47, 0x0D, 0x0A, 0x1A, 0x0A];
        if starts_with(data, &png) {
            return Some(ImageFormat::Png);
        }
        let jpeg: [u8; 3] = [0xFF, 0xD8, 0xFF];
        if starts_with(data, &jpeg) {
            return Some(ImageFormat::Jpeg);
        }
        let gif87: [u8; 6] = [71, 73, 70, 56, 55, 97];
        let gif89: [u8; 6] = [71, 73, 70, 56, 57, 97];
        if starts_with(data, &gif87) || starts_with(data, &gif89) {
            return Some(ImageFormat::Gif);
        }
        let riff: [u8; 4] = [82, 73, 70, 70];
        if starts_with(data, &riff) && data.len() >= 12 && data[8] == 87 && data[9] == 69
            && data[10] == 66 && data[11] == 80 {
            assert(data@.subrange(8, 12) =~= seq![87u8, 69u8, 66u8, 80u8]);
            return Some(ImageFormat::Webp);
        }
        proof {
            if starts_with_bytes(data@, seq![82u8, 73u8, 70u8, 70u8]) && data@.len() >= 12
                && data@.subrange(8, 12) == seq![87u8, 69u8, 66u8, 80u8] {
                assert(data@.subrange(8, 12)[0] == data@[8]);
                assert(data@.subrange(8, 12)[1] == data@[9]);
                assert(data@.subrange(8, 12)[2] == data@[10]);
                assert(data@.subrange(8, 12)[3] == data@[11]);
            }
        }
        let n = if data.len() < 256 {
            data.len()
        } else {
            256
        };
        let head = vstd::slice::slice_subrange(data, 0, n);
        let text = match utf8_text(head) {
            Some(t) => t,
            None => return None,
        };
        let found = contains_text(text, "<svg") || contains_text(text, "<?xml");
        proof {
            if exists|t: Seq<char>| encode_utf8(t) == head@ && (has_substring(t, "<svg"@) || has_substring(t, "<?xml"@)) {
                let t = choose|t: Seq<char>| encode_utf8(t) == head@ && (has_substring(t, "<svg"@) || has_substring(t, "<?xml"@));
                vstd::utf8::encode_utf8_decode_utf8(t);
                vstd::utf8::encode_utf8_decode_utf8(text@);
            }
        }
        if found {
            Some(ImageFormat::Svg)
        } else {
            None
        }
    }

    /// Detect format from a lower-case file extension
    pub fn from_lowercase_extension(ext: &str) -> (r: Option<Self>)
        ensures
            r == format_of_extension(ext@),
    {
        let e = String::from_str(ext);
        if e == String::from_str("png") {
            Some(ImageFormat::Png)
        } else if e == String::from_str("jpg") || e == String::from_str("jpeg") {
            Some(ImageFormat::Jpeg)
        } else if e == String::from_str("gif") {
            Some(ImageFormat::Gif)
        } else if e == String::from_str("webp") {
            Some(ImageFormat::Webp)
        } else if e == String::from_str("svg") {
            Some(ImageFormat::Svg)
        } else {
            None
        }
    }

    /// Detect format from file extension, in any letter case
    pub fn from_extension(ext: &str) -> (r: Option<Self>)
        ensures
            r == format_of_extension(lower_of(ext@)),
    {
        let lower = lowercase(ext);
        Self::from_lowercase_extension(lower.as_str())
    }
}

/// Image handler for managing images in the editor
pub struct ImageHandler {
    config: ImageConfig,
}

impl ImageHandler {
    /// The handler's configuration.
    pub closed spec fn config(&self) -> ImageConfig {
        self.config
    }

    /// Create a new image handler with default config
    pub fn new() -> (r: Self)
        ensures
            r.config().assets_dir_name@ == "assets"@,
            r.config().filename_prefix@ == "image"@,
            r.config().copy_images,
    {
        ImageHandler { config: ImageConfig::default() }
    }

    /// Create a new image handler with custom config
    pub fn with_config(config: ImageConfig) -> (r: Self)
        ensures
            r.config() == config,
    {
        ImageHandler { config }
    }

    /// Get the assets directory path for a document: the assets directory
    /// name joined to the document's parent (or `.` when it has none)
    pub fn get_assets_dir(&self, document_path: &str) -> (r: String)
        ensures
            r@ == joined(
                match parent_of(document_path@) {
                    Some(p) => p,
                    None => "."@,
                },
                self.config().assets_dir_name@,
            ),
    {
        let parent = match path_parent(document_path) {
            Some(p) => p,
            None => String::from_str("."),
        };
        path_join(parent.as_str(), self.config.assets_dir_name.as_str())
    }

    /// Generate markdown image link `![alt](assets/filename)`
    pub fn generate_markdown_link(&self, filename: &str, alt_text: &str) -> (r: String)
        ensures
            r@ == "!["@ + alt_text@ + "]("@ + self.config().assets_dir_name@ + "/"@ + filename@
                + ")"@,
    {
        String::from_str("![").concat(alt_text).concat("](").concat(
            self.config.assets_dir_name.as_str(),
        ).concat("/").concat(filename).concat(")")
    }

    /// Check if a file is a supported image format, by its extension
    pub fn is_supported_image(path: &str) -> (r: bool)
        ensures
            r == (extension_of(path@) matches Some(e) && format_of_extension(lower_of(e)) is Some),
    {
        match path_extension(path) {
            Some(e) => ImageFormat::from_extension(e.as_str()).is_some(),
            None => false,
        }
    }
}

impl Default for ImageHandler {
    fn default() -> (r: Self)
        ensures
            r.config().assets_dir_name@ == "assets"@,
    {
        ImageHandler::new()
    }
}

} // verus!
