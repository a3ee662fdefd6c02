//! Path utilities over paths written as strings.

use vstd::prelude::*;

verus! {

/// What `Path::file_stem` gives for a path, as text.
pub uninterp spec fn stem_of(path: Seq<char>) -> Option<Seq<char>>;

/// What `Path::extension` gives for a path, as text.
pub uninterp spec fn extension_of(path: Seq<char>) -> Option<Seq<char>>;

/// What `Path::file_name` gives for a path, as text.
pub uninterp spec fn file_name_of(path: Seq<char>) -> Option<Seq<char>>;

/// Relies on std::path::Path::file_name (and `OsStr::to_str`).
#[verifier::external_body]
pub(crate) fn path_file_name(path: &str) -> (r: Option<String>)
    ensures
        r matches Some(t) ==> file_name_of(path@) == Some(t@),
        r is None ==> file_name_of(path@) is None,
{
    std::path::Path::new(path).file_name().and_then(|s| s.to_str()).map(|s| s.to_string())
}

/// What `Path::parent` gives for a path, as text.
pub uninterp spec fn parent_of(path: Seq<char>) -> Option<Seq<char>>;

/// What `Path::join` gives for a base and a further part, as text.
pub uninterp spec fn joined(base: Seq<char>, part: Seq<char>) -> Seq<char>;

/// Relies on std::path::Path::parent (and `Path::to_str`).
#[verifier::external_body]
pub(crate) fn path_parent(path: &str) -> (r: Option<String>)
    ensures
        r matches Some(t) ==> parent_of(path@) == Some(t@),
        r is None ==> parent_of(path@) is None,
{
    std::path::Path::new(path).parent().and_then(|p| p.to_str()).map(|p| p.to_string())
}

/// Relies on std::path::Path::join (and `PathBuf::to_string_lossy`, which
/// keeps text that came in as text).
#[verifier::external_body]
pub(crate) fn path_join(base: &str, part: &str) -> (r: String)
    ensures
        r@ == joined(base@, part@),
{
    std::path::Path::new(base).join(part).to_string_lossy().to_string()
}

/// What `Path::strip_prefix` gives for a path and a base, as text.
pub uninterp spec fn relative_of(path: Seq<char>, base: Seq<char>) -> Option<Seq<char>>;

/// Relies on std::path::Path::file_stem (and `OsStr::to_str`).
#[verifier::external_body]
fn path_file_stem(path: &str) -> (r: Option<String>)
    ensures
        r matches Some(t) ==> stem_of(path@) == Some(t@),
        r is None ==> stem_of(path@) is None,
{
    std::path::Path::new(path).file_stem().and_then(|s| s.to_str()).map(|s| s.to_string())
}

/// Relies on std::path::Path::extension (and `OsStr::to_str`).
#[verifier::external_body]
pub(crate) fn path_extension(path: &str) -> (r: Option<String>)
    ensures
        r matches Some(t) ==> extension_of(path@) == Some(t@),
        r is None ==> extension_of(path@) is None,
{
    std::path::Path::new(path).extension().and_then(|s| s.to_str()).map(|s| s.to_string())
}

/// Relies on std::path::Path::strip_prefix (and `Path::to_str`).
#[verifier::external_body]
fn path_strip_prefix(path: &str, base: &str) -> (r: Option<String>)
    ensures
        r matches Some(t) ==> relative_of(path@, base@) == Some(t@),
        r is None ==> relative_of(path@, base@) is None,
{
    std::path::Path::new(path).strip_prefix(base).ok().and_then(|p| p.to_str()).map(|p| p.to_string())
}

/// Get the file name without extension
pub fn file_stem(path: &str) -> (r: Option<String>)
    ensures
        r matches Some(t) ==> stem_of(path@) == Some(t@),
        r is None ==> stem_of(path@) is None,
{
    path_file_stem(path)
}

/// Get the file extension
pub fn extension(path: &str) -> (r: Option<String>)
    ensures
        r matches Some(t) ==> extension_of(path@) == Some(t@),
        r is None ==> extension_of(path@) is None,
{
    path_extension(path)
}

/// The extensions that mark a markdown file.
pub open spec fn markdown_extension(e: Seq<char>) -> bool {
    e == "md"@ || e == "markdown"@ || e == "mdown"@ || e == "mkd"@
}

/// Whether an extension is one of markdown's
pub fn is_markdown_extension(ext: &str) -> (r: bool)
    ensures
        r == markdown_extension(ext@),
{
    let e = String::from_str(ext);
    let md = String::from_str("md");
    let markdown = String::from_str("markdown");
    let mdown = String::from_str("mdown");
    let mkd = String::from_str("mkd");
    e == md || e == markdown || e == mdown || e == mkd
}

/// Check if path has a markdown extension
pub fn is_markdown(path: &str) -> (r: bool)
    ensures
        r == (extension_of(path@) matches Some(e) && markdown_extension(e)),
{
    match path_extension(path) {
        Some(e) => is_markdown_extension(e.as_str()),
        None => false,
    }
}

/// Make a path relative to a base path
pub fn relative_to(path: &str, base: &str) -> (r: Option<String>)
    ensures
        r matches Some(t) ==> relative_of(path@, base@) == Some(t@),
        r is None ==> relative_of(path@, base@) is None,
{
    path_strip_prefix(path, base)
}

} // verus!
