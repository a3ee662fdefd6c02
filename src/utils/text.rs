//! Text utilities.

use vstd::prelude::*;
use vstd::utf8::encode_utf8;
use vstd::string::StringSliceAdditionalSpecFns;
use crate::editor::buffer::{char_is_whitespace, count_nl, count_words};

verus! {

/// Count words (maximal runs of non-whitespace) in text
pub fn word_count(text: &str) -> (r: usize)
    ensures
        r == count_words(text@),
{
    let n = text.unicode_len();
    let ghost s = text@;
    let mut count: usize = 0;
    let mut prev_ws = true;
    let mut i: usize = 0;
    while i < n
        invariant
            i <= n == s.len(),
            s == text@,
            count == count_words(s.subrange(0, i as int)),
            count <= i,
            prev_ws == (i == 0 || crate::editor::buffer::whitespace(s[i - 1])),
        decreases n - i,
    {
        let ws = char_is_whitespace(text.get_char(i));
        assert(s.subrange(0, i + 1).drop_last() =~= s.subrange(0, i as int));
        if !ws && prev_ws {
            count = count + 1;
        }
        prev_ws = ws;
        i = i + 1;
    }
    assert(s.subrange(0, n as int) =~= s);
    count
}

/// Number of lines as `str::lines` counts them: none in an empty text, and
/// a final line break ends the last line rather than starting a new one.
pub open spec fn lines_in(s: Seq<char>) -> int {
    if s.len() == 0 {
        0
    } else if s.last() == '\n' {
        count_nl(s) as int
    } else {
        (count_nl(s) + 1) as int
    }
}

/// Count lines in text
pub fn line_count(text: &str) -> (r: usize)
    ensures
        r == lines_in(text@),
{
    let n = text.unicode_len();
    if n == 0 {
        return 0;
    }
    let mut nl: usize = 0;
    let mut i: usize = 0;
    while i < n
        invariant
            n == text@.len(),
            i <= n,
            nl == count_nl(text@.subrange(0, i as int)),
            nl <= i,
        decreases n - i,
    {
        assert(text@.subrange(0, i + 1).drop_last() =~= text@.subrange(0, i as int));
        if text.get_char(i) == '\n' {
            nl = nl + 1;
        }
        i = i + 1;
    }
    assert(text@.subrange(0, n as int) =~= text@);
    proof {
        crate::editor::buffer::lemma_count_le_len(text@.drop_last());
    }
    if text.get_char(n - 1) == '\n' {
        nl
    } else {
        nl + 1
    }
}

/// Number of line-feed bytes in `b`.
pub open spec fn count_lf_bytes(b: Seq<u8>) -> nat
    decreases b.len(),
{
    if b.len() == 0 {
        0
    } else {
        count_lf_bytes(b.drop_last()) + if b.last() == 10u8 { 1nat } else { 0nat }
    }
}

/// Get the line (0-indexed) at a byte offset: the line feeds before it;
/// `None` past the end of the text
pub fn line_at_offset(text: &str, offset: usize) -> (r: Option<usize>)
    ensures
        offset > text.spec_bytes().len() ==> r is None,
        offset <= text.spec_bytes().len() ==> r == Some(
            count_lf_bytes(text.spec_bytes().subrange(0, offset as int)) as usize,
        ),
{
    let bytes = text.as_bytes();
    if offset > bytes.len() {
        return None;
    }
    let mut nl: usize = 0;
    let mut i: usize = 0;
    while i < offset
        invariant
            bytes@ == text.spec_bytes(),
            i <= offset <= bytes@.len(),
            nl == count_lf_bytes(bytes@.subrange(0, i as int)),
            nl <= i,
        decreases offset - i,
    {
        assert(bytes@.subrange(0, i + 1).drop_last() =~= bytes@.subrange(0, i as int));
        if bytes[i] == 10u8 {
            nl = nl + 1;
        }
        i = i + 1;
    }
    Some(nl)
}

/// The largest character boundary of `b` at or below `i` (0 at the least).
pub open spec fn boundary_at_or_below(b: Seq<u8>, i: int) -> int
    decreases i,
{
    if i <= 0 {
        0
    } else if vstd::utf8::is_char_boundary(b, i) {
        i
    } else {
        boundary_at_or_below(b, i - 1)
    }
}

/// Truncate a string to at most `max_len` bytes with an ellipsis: kept
/// whole when it fits, `"..."` alone when `max_len` is 3 or less, else its
/// longest prefix of at most `max_len - 3` bytes that ends on a character
/// boundary, followed by `"..."`
pub fn truncate(s: &str, max_len: usize) -> (r: String)
    requires
        s.spec_bytes().len() <= usize::MAX,
    ensures
        s.spec_bytes().len() <= max_len ==> r@ == s@,
        s.spec_bytes().len() > max_len && max_len <= 3 ==> r@ == "..."@,
        s.spec_bytes().len() > max_len > 3 ==> exists|p: Seq<char>|
            encode_utf8(p) == s.spec_bytes().subrange(
                0,
                boundary_at_or_below(s.spec_bytes(), max_len - 3),
            ) && r@ == p + "..."@,
{
    if s.len() <= max_len {
        s.to_owned()
    } else if max_len <= 3 {
        String::from_str("...")
    } else {
        proof {
            vstd::utf8::encode_utf8_valid_utf8(s@);
        }
        let ghost b = s.spec_bytes();
        let mut k = max_len - 3;
        while k > 0 && !s.is_char_boundary(k)
            invariant
                b == s.spec_bytes(),
                vstd::utf8::valid_utf8(b),
                k <= max_len - 3,
                boundary_at_or_below(b, k as int) == boundary_at_or_below(b, max_len - 3),
            decreases k,
        {
            k = k - 1;
        }
        assert(vstd::utf8::is_char_boundary(b, k as int));
        assert(boundary_at_or_below(b, k as int) == k);
        let (head, _) = s.split_at(k);
        let r = head.to_owned().concat("...");
        assert(encode_utf8(head@) == b.subrange(0, k as int) && r@ == head@ + "..."@);
        r
    }
}

/// What `str::to_lowercase` gives for a text.
pub uninterp spec fn lower_of(s: Seq<char>) -> Seq<char>;

/// Relies on str::to_lowercase; the result depends on the characters alone.
#[verifier::external_body]
pub(crate) fn lowercase(s: &str) -> (r: String)
    ensures
        r@ == lower_of(s@),
{
    s.to_lowercase()
}

/// `t` holds `p` somewhere.
pub open spec fn has_substring(t: Seq<char>, p: Seq<char>) -> bool {
    exists|i: int| 0 <= i <= t.len() - p.len() && #[trigger] t.subrange(i, i + p.len()) == p
}

/// Whether `t` holds `p` somewhere.
pub(crate) fn contains_text(t: &str, p: &str) -> (r: bool)
    ensures
        r == has_substring(t@, p@),
{
    let n = t.unicode_len();
    let m = p.unicode_len();
    if m > n {
        return false;
    }
    let mut i: usize = 0;
    while i <= n - m
        invariant
            n == t@.len(),
            m == p@.len(),
            m <= n,
            i <= n - m + 1,
            forall|k: int| 0 <= k < i ==> #[trigger] t@.subrange(k, k + m) != p@,
        decreases n - m + 1 - i,
    {
        let mut j: usize = 0;
        let mut same = true;
        while j < m
            invariant
                n == t@.len(),
                m == p@.len(),
                i + m <= n,
                j <= m,
                same == (forall|l: int| 0 <= l < j ==> t@[i + l] == p@[l]),
            decreases m - j,
        {
            if t.get_char(i + j) != p.get_char(j) {
                same = false;
            }
            j = j + 1;
        }
        if same {
            assert(t@.subrange(i as int, i + m) =~= p@);
            return true;
        }
        assert(t@.subrange(i as int, i + m)[0] == t@[i as int + 0] || m == 0);
        proof {
            if t@.subrange(i as int, i + m) == p@ {
                assert forall|l: int| 0 <= l < m implies t@[i + l] == p@[l] by {
                    assert(t@.subrange(i as int, i + m)[l] == t@[i + l]);
                }
            }
        }
        i = i + 1;
    }
    false
}

} // verus!
