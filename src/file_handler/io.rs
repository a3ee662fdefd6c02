//! File metadata and encoding detection (the reading and writing itself is
//! done by the application).

use vstd::prelude::*;
use vstd::utf8::{decode_utf8, encode_utf8, valid_utf8};
use crate::utils::{decimal, now_millis, push_char, u64_to_string};

verus! {

/// Maximum file size to open (10 MB)
pub const MAX_FILE_SIZE: u64 = 10 * 1024 * 1024;

/// File size that triggers a warning (1 MB)
pub const WARNING_FILE_SIZE: u64 = 1024 * 1024;

/// Detected encoding of a file
#[derive(Debug, Clone, Copy, PartialEq, Eq, Structural)]
pub enum FileEncoding {
    /// UTF-8 without BOM
    Utf8,
    /// UTF-8 with BOM
    Utf8Bom,
    /// UTF-16 Little Endian with BOM
    Utf16Le,
    /// UTF-16 Big Endian with BOM
    Utf16Be,
    /// Unknown/binary (lossy UTF-8 conversion used)
    Unknown,
}

impl Default for FileEncoding {
    fn default() -> (r: Self)
        ensures
            r == FileEncoding::Utf8,
    {
        FileEncoding::Utf8
    }
}

/// Result of reading a file
#[derive(Debug, Clone)]
pub struct FileReadResult {
    /// The file content as a string
    pub content: String,
    /// Detected encoding
    pub encoding: FileEncoding,
    /// Original file size in bytes
    pub size_bytes: u64,
    /// Whether lossy conversion was used
    pub lossy: bool,
}

/// File metadata information
#[derive(Debug, Clone)]
pub struct FileInfo {
    /// Canonical file path
    pub path: String,
    /// File size in bytes
    pub size_bytes: u64,
    /// Last modification time, in seconds since the Unix epoch
    pub modified: Option<u64>,
    /// Creation time (if available), in seconds since the Unix epoch
    pub created: Option<u64>,
    /// Whether file is read-only
    pub is_readonly: bool,
    /// Whether the file exists
    pub exists: bool,
}

/// How long ago a modification at `then` was, seen at `now` (seconds).
pub open spec fn ago_text(then: Option<u64>, now: u64) -> Seq<char> {
    match then {
        Some(t) => if now < t {
            "Unknown"@
        } else {
            let secs = (now - t) as nat;
            if secs < 60 {
                "Just now"@
            } else if secs < 3600 {
                decimal(secs / 60) + " minutes ago"@
            } else if secs < 86400 {
                decimal(secs / 3600) + " hours ago"@
            } else {
                decimal(secs / 86400) + " days ago"@
            }
        },
        None => "Unknown"@,
    }
}

impl FileInfo {
    /// Check if file is too large
    pub fn is_too_large(&self) -> (r: bool)
        ensures
            r == (self.size_bytes > MAX_FILE_SIZE),
    {
        self.size_bytes > MAX_FILE_SIZE
    }

    /// Check if file should show size warning
    pub fn should_warn_size(&self) -> (r: bool)
        ensures
            r == (self.size_bytes > WARNING_FILE_SIZE && self.size_bytes <= MAX_FILE_SIZE),
    {
        self.size_bytes > WARNING_FILE_SIZE && self.size_bytes <= MAX_FILE_SIZE
    }

    /// Human-readable time since last modification, seen at `now` (seconds
    /// since the Unix epoch)
    pub fn modified_ago_at(&self, now: u64) -> (r: String)
        ensures
            r@ == ago_text(self.modified, now),
    {
        match self.modified {
            Some(t) => {
                if now < t {
                    return String::from_str("Unknown");
                }
                let secs = now - t;
                if secs < 60 {
                    String::from_str("Just now")
                } else if secs < 3600 {
                    u64_to_string(secs / 60).concat(" minutes ago")
                } else if secs < 86400 {
                    u64_to_string(secs / 3600).concat(" hours ago")
                } else {
                    u64_to_string(secs / 86400).concat(" days ago")
                }
            },
            None => String::from_str("Unknown"),
        }
    }

    /// Human-readable time since last modification
    pub fn modified_ago(&self) -> (r: String)
        ensures
            self.modified is None ==> r@ == "Unknown"@,
    {
        let now = now_millis() / 1000;
        self.modified_ago_at(now)
    }
}

/// Relies on std::str::from_utf8: the text of the bytes when they are
/// valid UTF-8.
#[verifier::external_body]
pub(crate) fn utf8_text(data: &[u8]) -> (r: Option<&str>)
    ensures
        r is Some == valid_utf8(data@),
        r matches Some(t) ==> encode_utf8(t@) == data@,
{
    std::str::from_utf8(data).ok()
}

/// The encoding that a byte-order mark or UTF-8 validity shows.
pub open spec fn encoding_of(b: Seq<u8>) -> FileEncoding {
    if b.len() >= 3 && b[0] == 0xEFu8 && b[1] == 0xBBu8 && b[2] == 0xBFu8 {
        FileEncoding::Utf8Bom
    } else if b.len() >= 2 && b[0] == 0xFFu8 && b[1] == 0xFEu8 {
        FileEncoding::Utf16Le
    } else if b.len() >= 2 && b[0] == 0xFEu8 && b[1] == 0xFFu8 {
        FileEncoding::Utf16Be
    } else if valid_utf8(b) {
        FileEncoding::Utf8
    } else {
        FileEncoding::Unknown
    }
}

/// Detect file encoding from raw bytes: a byte-order mark first, then
/// whether the bytes are valid UTF-8
pub fn detect_encoding(bytes: &[u8]) -> (r: FileEncoding)
    ensures
        r == encoding_of(bytes@),
{
    if bytes.len() >= 3 && bytes[0] == 0xEF && bytes[1] == 0xBB && bytes[2] == 0xBF {
        return FileEncoding::Utf8Bom;
    }
    if bytes.len() >= 2 {
        if bytes[0] == 0xFF && bytes[1] == 0xFE {
            return FileEncoding::Utf16Le;
        }
        if bytes[0] == 0xFE && bytes[1] == 0xFF {
            return FileEncoding::Utf16Be;
        }
    }
    if utf8_text(bytes).is_some() {
        FileEncoding::Utf8
    } else {
        FileEncoding::Unknown
    }
}

/// What `String::from_utf8_lossy` gives for some bytes.
pub uninterp spec fn lossy_text_of(b: Seq<u8>) -> Seq<char>;

/// What `char::decode_utf16` gives for some code units: each decoded
/// character, or `None` for an unpaired surrogate.
pub uninterp spec fn utf16_items_of(units: Seq<u16>) -> Seq<Option<char>>;

/// The text of decoded items, U+FFFD standing for each that failed.
pub open spec fn items_text(items: Seq<Option<char>>) -> Seq<char>
    decreases items.len(),
{
    if items.len() == 0 {
        Seq::empty()
    } else {
        items_text(items.drop_last()).push(
            match items.last() {
                Some(c) => c,
                None => '\u{FFFD}',
            },
        )
    }
}

/// Some item failed to decode.
pub open spec fn items_lossy(items: Seq<Option<char>>) -> bool {
    exists|i: int| 0 <= i < items.len() && (#[trigger] items[i]) is None
}

/// Relies on String::from_utf8_lossy: valid input decodes as it is.
#[verifier::external_body]
fn utf8_lossy(bytes: &[u8]) -> (r: String)
    ensures
        r@ == lossy_text_of(bytes@),
        valid_utf8(bytes@) ==> r@ == decode_utf8(bytes@),
{
    String::from_utf8_lossy(bytes).to_string()
}

/// Relies on char::decode_utf16: the decoded characters in order, `None`
/// for each unpaired surrogate.
#[verifier::external_body]
fn utf16_items(units: &[u16]) -> (r: Vec<Option<char>>)
    ensures
        r@ == utf16_items_of(units@),
{
    char::decode_utf16(units.iter().copied()).map(|r| r.ok()).collect()
}

/// The text of decoded items, and whether any failed.
fn text_of_items(items: &Vec<Option<char>>) -> (r: (String, bool))
    ensures
        r.0@ == items_text(items@),
        r.1 == items_lossy(items@),
{
    let mut text = String::new();
    let mut lossy = false;
    let mut i: usize = 0;
    while i < items.len()
        invariant
            i <= items@.len(),
            text@ == items_text(items@.subrange(0, i as int)),
            lossy == items_lossy(items@.subrange(0, i as int)),
        decreases items@.len() - i,
    {
        let ghost pre = items@.subrange(0, i as int);
        let ghost next = items@.subrange(0, i + 1);
        assert(next.drop_last() =~= pre);
        match items[i] {
            Some(c) => push_char(&mut text, c),
            None => {
                push_char(&mut text, '\u{FFFD}');
                lossy = true;
            },
        }
        proof {
            if lossy {
                if !items_lossy(pre) {
                    assert(next[i as int] is None);
                }
            } else {
                assert forall|k: int| 0 <= k < next.len() implies !(#[trigger] next[k] is None) by {
                    if k < i {
                        assert(next[k] == pre[k]);
                    }
                }
            }
            if items_lossy(pre) {
                let k = choose|k: int| 0 <= k < pre.len() && (#[trigger] pre[k]) is None;
                assert(next[k] == pre[k]);
            }
        }
        i = i + 1;
    }
    assert(items@.subrange(0, items@.len() as int) =~= items@);
    (text, lossy)
}

/// The 16-bit code units of `b`, two bytes each (a trailing odd byte is
/// dropped), little- or big-endian.
pub open spec fn units_of(b: Seq<u8>, little_endian: bool) -> Seq<u16> {
    Seq::new(
        b.len() / 2,
        |i: int|
            if little_endian {
                (b[2 * i] + 256 * b[2 * i + 1]) as u16
            } else {
                (b[2 * i + 1] + 256 * b[2 * i]) as u16
            },
    )
}

/// Pair up bytes into 16-bit code units.
fn to_units(bytes: &[u8], little_endian: bool) -> (r: Vec<u16>)
    ensures
        r@ == units_of(bytes@, little_endian),
{
    let len = bytes.len();
    let n = len / 2;
    let mut units: Vec<u16> = Vec::new();
    let mut i: usize = 0;
    while i < n
        invariant
            len == bytes@.len(),
            n == bytes@.len() / 2,
            i <= n,
            units@ == units_of(bytes@, little_endian).subrange(0, i as int),
        decreases n - i,
    {
        let lo = if little_endian {
            bytes[2 * i]
        } else {
            bytes[2 * i + 1]
        };
        let hi = if little_endian {
            bytes[2 * i + 1]
        } else {
            bytes[2 * i]
        };
        let unit = lo as u16 + 256 * (hi as u16);
        units.push(unit);
        assert(units@ =~= units_of(bytes@, little_endian).subrange(0, i + 1));
        i = i + 1;
    }
    assert(units@ =~= units_of(bytes@, little_endian));
    units
}

/// Decode UTF-16 little-endian bytes (without their byte-order mark);
/// the flag tells whether a replacement character was used
pub fn decode_utf16_le(bytes: &[u8]) -> (r: (String, bool))
    ensures
        r.0@ == items_text(utf16_items_of(units_of(bytes@, true))),
        r.1 == items_lossy(utf16_items_of(units_of(bytes@, true))),
{
    let units = to_units(bytes, true);
    let items = utf16_items(units.as_slice());
    text_of_items(&items)
}

/// Decode UTF-16 big-endian bytes (without their byte-order mark)
pub fn decode_utf16_be(bytes: &[u8]) -> (r: (String, bool))
    ensures
        r.0@ == items_text(utf16_items_of(units_of(bytes@, false))),
        r.1 == items_lossy(utf16_items_of(units_of(bytes@, false))),
{
    let units = to_units(bytes, false);
    let items = utf16_items(units.as_slice());
    text_of_items(&items)
}

/// Text of UTF-8 bytes: exact when valid, else lossy.
pub open spec fn utf8_decoded(b: Seq<u8>) -> (Seq<char>, bool) {
    if valid_utf8(b) {
        (decode_utf8(b), false)
    } else {
        (lossy_text_of(b), true)
    }
}

/// The text of file bytes in a detected encoding, with whether decoding
/// had to replace anything.
pub open spec fn decoded(b: Seq<u8>, encoding: FileEncoding) -> (Seq<char>, bool) {
    match encoding {
        FileEncoding::Utf8 => utf8_decoded(b),
        FileEncoding::Utf8Bom => utf8_decoded(b.subrange(3, b.len() as int)),
        FileEncoding::Utf16Le => (
            items_text(utf16_items_of(units_of(b.subrange(2, b.len() as int), true))),
            items_lossy(utf16_items_of(units_of(b.subrange(2, b.len() as int), true))),
        ),
        FileEncoding::Utf16Be => (
            items_text(utf16_items_of(units_of(b.subrange(2, b.len() as int), false))),
            items_lossy(utf16_items_of(units_of(b.subrange(2, b.len() as int), false))),
        ),
        FileEncoding::Unknown => (lossy_text_of(b), true),
    }
}

/// UTF-8 bytes as text, lossy when invalid.
fn decode_utf8_bytes(bytes: &[u8]) -> (r: (String, bool))
    ensures
        r.0@ == utf8_decoded(bytes@).0,
        r.1 == utf8_decoded(bytes@).1,
{
    match utf8_text(bytes) {
        Some(s) => {
            proof {
                vstd::utf8::encode_utf8_decode_utf8(s@);
            }
            (s.to_owned(), false)
        },
        None => (utf8_lossy(bytes), true),
    }
}

/// Decode file bytes in the encoding `detect_encoding` found (its
/// byte-order mark is skipped)
pub fn decode_content(bytes: &[u8], encoding: FileEncoding) -> (r: (String, bool))
    requires
        encoding == FileEncoding::Utf8Bom ==> bytes@.len() >= 3,
        encoding == FileEncoding::Utf16Le || encoding == FileEncoding::Utf16Be ==> bytes@.len()
            >= 2,
    ensures
        r.0@ == decoded(bytes@, encoding).0,
        r.1 == decoded(bytes@, encoding).1,
{
    match encoding {
        FileEncoding::Utf8 => decode_utf8_bytes(bytes),
        FileEncoding::Utf8Bom => decode_utf8_bytes(vstd::slice::slice_subrange(bytes, 3, bytes.len())),
        FileEncoding::Utf16Le => decode_utf16_le(vstd::slice::slice_subrange(bytes, 2, bytes.len())),
        FileEncoding::Utf16Be => decode_utf16_be(vstd::slice::slice_subrange(bytes, 2, bytes.len())),
        FileEncoding::Unknown => (utf8_lossy(bytes), true),
    }
}

/// Bytes as text: their encoding detected, then decoded.
pub fn read_text(bytes: &[u8]) -> (r: FileReadResult)
    requires
        bytes@.len() <= u64::MAX,
    ensures
        r.encoding == encoding_of(bytes@),
        r.content@ == decoded(bytes@, encoding_of(bytes@)).0,
        r.lossy == decoded(bytes@, encoding_of(bytes@)).1,
        r.size_bytes == bytes@.len(),
{
    let encoding = detect_encoding(bytes);
    let (content, lossy) = decode_content(bytes, encoding);
    FileReadResult { content, encoding, size_bytes: bytes.len() as u64, lossy }
}

} // verus!
