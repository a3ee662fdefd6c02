//! Text buffer backed by a rope, with line-ending handling and conversions
//! between character offsets and (line, column) positions.
//!
//! Text is held with LF line endings; the style found at load time is put
//! back on output. Lines are separated by `'\n'` alone.

use vstd::prelude::*;
use std::ops::Range;
use ropey::Rope;

verus! {

// ---------------------------------------------------------------------------
// The rope, as seen through its contents.

#[verifier::external_type_specification]
#[verifier::external_body]
pub struct ExRope(ropey::Rope);

/// The characters that a rope holds, in order.
pub uninterp spec fn rope_chars(r: Rope) -> Seq<char>;

/// Relies on Rope's `Clone`: the copy holds the same characters.
pub assume_specification[ <ropey::Rope as std::clone::Clone>::clone ](r: &ropey::Rope) -> (c: ropey::Rope)
    ensures
        rope_chars(c) == rope_chars(*r),
;

/// Relies on Rope::new: an empty rope.
#[verifier::external_body]
pub(crate) fn rope_new() -> (r: Rope)
    ensures
        rope_chars(r) == Seq::<char>::empty(),
{
    Rope::new()
}

/// Relies on Rope::from_str: a rope holding the characters of `s`.
#[verifier::external_body]
pub(crate) fn rope_from_str(s: &str) -> (r: Rope)
    ensures
        rope_chars(r) == s@,
{
    Rope::from_str(s)
}

/// Relies on Rope::len_chars: the number of characters.
#[verifier::external_body]
pub(crate) fn rope_len_chars(r: &Rope) -> (n: usize)
    ensures
        n == rope_chars(*r).len(),
{
    r.len_chars()
}

/// Relies on Rope::len_lines: one more than the number of line breaks, which
/// are `'\n'` alone with the crate's default features switched off.
#[verifier::external_body]
pub(crate) fn rope_len_lines(r: &Rope) -> (n: usize)
    ensures
        n == count_nl(rope_chars(*r)) + 1,
{
    r.len_lines()
}

/// Relies on Rope::line_to_char: the offset of the first character of a
/// line, or the length for the line one past the last.
#[verifier::external_body]
fn rope_line_to_char(r: &Rope, line: usize) -> (n: usize)
    requires
        line <= count_nl(rope_chars(*r)) + 1,
    ensures
        n == line_start(rope_chars(*r), line as nat),
{
    r.line_to_char(line)
}

/// Relies on Rope::char_to_line: the number of line breaks before an offset.
#[verifier::external_body]
fn rope_char_to_line(r: &Rope, idx: usize) -> (n: usize)
    requires
        idx <= rope_chars(*r).len(),
    ensures
        n == count_nl(rope_chars(*r).subrange(0, idx as int)),
{
    r.char_to_line(idx)
}

/// Relies on Rope::char: the character at an offset.
#[verifier::external_body]
fn rope_char(r: &Rope, idx: usize) -> (c: char)
    requires
        idx < rope_chars(*r).len(),
    ensures
        c == rope_chars(*r)[idx as int],
{
    r.char(idx)
}

/// Relies on Rope::insert: `text` goes in before the character at `idx`.
#[verifier::external_body]
fn rope_insert(r: &mut Rope, idx: usize, text: &str)
    requires
        idx <= rope_chars(*old(r)).len(),
    ensures
        rope_chars(*final(r)) == rope_chars(*old(r)).subrange(0, idx as int) + text@
            + rope_chars(*old(r)).subrange(idx as int, rope_chars(*old(r)).len() as int),
{
    r.insert(idx, text)
}

/// Relies on Rope::remove: the characters in `start..end` leave.
#[verifier::external_body]
fn rope_remove(r: &mut Rope, start: usize, end: usize)
    requires
        start <= end <= rope_chars(*old(r)).len(),
    ensures
        rope_chars(*final(r)) == rope_chars(*old(r)).subrange(0, start as int)
            + rope_chars(*old(r)).subrange(end as int, rope_chars(*old(r)).len() as int),
{
    r.remove(start..end)
}

/// Relies on Rope::slice and its `Display`: the characters in `start..end`.
#[verifier::external_body]
fn rope_slice_string(r: &Rope, start: usize, end: usize) -> (s: String)
    requires
        start <= end <= rope_chars(*r).len(),
    ensures
        s@ == rope_chars(*r).subrange(start as int, end as int),
{
    r.slice(start..end).to_string()
}

/// Relies on Rope's `Display`: all the characters.
#[verifier::external_body]
pub(crate) fn rope_string(r: &Rope) -> (s: String)
    ensures
        s@ == rope_chars(*r),
{
    r.to_string()
}

// ---------------------------------------------------------------------------
// Character classes.

/// What `char::is_alphanumeric` says of a character.
pub uninterp spec fn alphanumeric(c: char) -> bool;

/// What `char::is_whitespace` says of a character.
pub uninterp spec fn whitespace(c: char) -> bool;

/// Relies on char::is_alphanumeric.
#[verifier::external_body]
pub(crate) fn char_is_alphanumeric(c: char) -> (r: bool)
    ensures
        r == alphanumeric(c),
{
    c.is_alphanumeric()
}

/// Relies on char::is_whitespace.
#[verifier::external_body]
pub(crate) fn char_is_whitespace(c: char) -> (r: bool)
    ensures
        r == whitespace(c),
{
    c.is_whitespace()
}

/// A character that belongs to a word: alphanumeric or underscore.
pub open spec fn is_word_char(c: char) -> bool {
    alphanumeric(c) || c == '_'
}

/// Whitespace other than a line break, skipped as one run by word motion.
pub open spec fn is_blank(c: char) -> bool {
    whitespace(c) && c != '\n'
}

// ---------------------------------------------------------------------------
// Lines.

/// Number of `'\n'` in `s`.
pub open spec fn count_nl(s: Seq<char>) -> nat
    decreases s.len(),
{
    if s.len() == 0 {
        0
    } else {
        count_nl(s.drop_last()) + if s.last() == '\n' { 1nat } else { 0nat }
    }
}

/// Offset of the first character of line `k` (0-indexed); the length of `s`
/// for the line one past the last.
pub open spec fn line_start(s: Seq<char>, k: nat) -> int
    decreases s.len(),
{
    if k == 0 || s.len() == 0 {
        0
    } else if count_nl(s.drop_last()) >= k {
        line_start(s.drop_last(), k)
    } else {
        s.len() as int
    }
}

/// Offset just past the last character of line `k`, its newline excluded.
pub open spec fn line_end(s: Seq<char>, k: nat) -> int {
    if k < count_nl(s) {
        line_start(s, k + 1) - 1
    } else {
        s.len() as int
    }
}

/// Number of characters of line `k`, its newline excluded.
pub open spec fn line_length(s: Seq<char>, k: nat) -> int {
    line_end(s, k) - line_start(s, k)
}

/// Offset of (line, col), the column clamped to the line's length.
pub open spec fn offset_of(s: Seq<char>, line: nat, col: nat) -> int {
    line_start(s, line) + if col <= line_length(s, line) { col as int } else { line_length(s, line) }
}

/// The (line, column) of an offset, clamped to the text's length first.
pub open spec fn position_of(s: Seq<char>, idx: nat) -> (nat, nat) {
    let i: int = if idx <= s.len() { idx as int } else { s.len() as int };
    let line = count_nl(s.subrange(0, i));
    (line, (i - line_start(s, line)) as nat)
}

pub proof fn lemma_count_step(s: Seq<char>, i: int)
    requires
        0 <= i < s.len(),
    ensures
        count_nl(s.subrange(0, i + 1)) == count_nl(s.subrange(0, i)) + if s[i] == '\n' { 1nat } else { 0nat },
{
    assert(s.subrange(0, i + 1).drop_last() =~= s.subrange(0, i));
}

pub proof fn lemma_count_mono(s: Seq<char>, i: int, j: int)
    requires
        0 <= i <= j <= s.len(),
    ensures
        count_nl(s.subrange(0, i)) <= count_nl(s.subrange(0, j)),
    decreases j - i,
{
    if i < j {
        lemma_count_step(s, j - 1);
        lemma_count_mono(s, i, j - 1);
    }
}

pub proof fn lemma_count_le_len(s: Seq<char>)
    ensures
        count_nl(s) <= s.len(),
    decreases s.len(),
{
    if s.len() > 0 {
        lemma_count_le_len(s.drop_last());
    }
}

pub proof fn lemma_count_full(s: Seq<char>)
    ensures
        count_nl(s.subrange(0, s.len() as int)) == count_nl(s),
{
    assert(s.subrange(0, s.len() as int) =~= s);
}

/// Where a line starts: the number of line breaks before it is the line's
/// index, and the character before it is a line break.
pub proof fn lemma_line_start(s: Seq<char>, k: nat)
    requires
        k <= count_nl(s),
    ensures
        0 <= line_start(s, k) <= s.len(),
        count_nl(s.subrange(0, line_start(s, k))) == k,
        k > 0 ==> line_start(s, k) > 0 && s[line_start(s, k) - 1] == '\n',
        k > 0 ==> count_nl(s.subrange(0, line_start(s, k) - 1)) == k - 1,
    decreases s.len(),
{
    if k == 0 || s.len() == 0 {
        assert(s.subrange(0, 0) =~= Seq::<char>::empty());
    } else {
        let d = s.drop_last();
        if count_nl(d) >= k {
            lemma_line_start(d, k);
            let ls = line_start(d, k);
            assert(s.subrange(0, ls) =~= d.subrange(0, ls));
            assert(s.subrange(0, ls - 1) =~= d.subrange(0, ls - 1));
        } else {
            lemma_count_full(s);
            assert(s.subrange(0, s.len() - 1) =~= d);
        }
    }
    if k > 0 {
        lemma_count_step(s, line_start(s, k) - 1);
    }
}

/// Line starts grow with the line index.
pub proof fn lemma_line_start_lt(s: Seq<char>, k: nat)
    requires
        k < count_nl(s),
    ensures
        line_start(s, k) < line_start(s, k + 1),
    decreases s.len(),
{
    lemma_line_start(s, k + 1);
    if k > 0 {
        let d = s.drop_last();
        if count_nl(d) >= k + 1 {
            lemma_line_start_lt(d, k);
        } else {
            lemma_line_start(d, k);
        }
    }
}

/// The line that holds an offset starts at or before it and ends at or
/// after it.
pub proof fn lemma_position_in_line(s: Seq<char>, i: int)
    requires
        0 <= i <= s.len(),
    ensures
        count_nl(s.subrange(0, i)) <= count_nl(s),
        line_start(s, count_nl(s.subrange(0, i))) <= i,
        i <= line_end(s, count_nl(s.subrange(0, i))),
{
    let k = count_nl(s.subrange(0, i));
    lemma_count_mono(s, i, s.len() as int);
    lemma_count_full(s);
    lemma_line_start(s, k);
    if k > 0 && line_start(s, k) > i {
        lemma_count_mono(s, i, line_start(s, k) - 1);
    }
    if k < count_nl(s) {
        lemma_line_start(s, k + 1);
        if i >= line_start(s, k + 1) {
            lemma_count_mono(s, line_start(s, k + 1), i);
        }
    }
}

/// Every line lies within the text.
pub proof fn lemma_line_bounds(s: Seq<char>, k: nat)
    requires
        k <= count_nl(s),
    ensures
        0 <= line_start(s, k) <= line_end(s, k) <= s.len(),
        k < count_nl(s) ==> line_start(s, k) < line_start(s, k + 1) <= s.len(),
{
    lemma_line_start(s, k);
    if k < count_nl(s) {
        lemma_line_start(s, k + 1);
        lemma_line_start_lt(s, k);
    }
}

/// A clamped position always lies within the buffer: its line exists and
/// its column is within that line.
pub proof fn lemma_clamped_offset_in_bounds(s: Seq<char>, line: nat, col: nat)
    requires
        line <= count_nl(s),
    ensures
        0 <= offset_of(s, line, col) <= s.len(),
{
    lemma_line_bounds(s, line);
}

/// Converting any offset gives an existing line and a column within it.
pub proof fn lemma_position_in_bounds(s: Seq<char>, idx: nat)
    ensures
        position_of(s, idx).0 <= count_nl(s),
        position_of(s, idx).1 <= line_length(s, position_of(s, idx).0),
{
    let i: int = if idx <= s.len() { idx as int } else { s.len() as int };
    lemma_position_in_line(s, i);
}

// ---------------------------------------------------------------------------
// Line endings.

/// Line ending style
#[derive(Debug, Clone, Copy, PartialEq, Eq, Structural)]
pub enum LineEnding {
    /// Unix-style line endings (LF: \n)
    Lf,
    /// Windows-style line endings (CRLF: \r\n)
    Crlf,
}

/// `s` holds a carriage return directly followed by a line feed.
pub open spec fn has_crlf(s: Seq<char>) -> bool {
    exists|i: int| 0 <= i < s.len() - 1 && #[trigger] s[i] == '\r' && s[i + 1] == '\n'
}

/// `s` with each `"\r\n"` turned into `"\n"`.
pub open spec fn crlf_to_lf(s: Seq<char>) -> Seq<char>
    decreases s.len(),
{
    if s.len() == 0 {
        s
    } else if s.len() >= 2 && s[0] == '\r' && s[1] == '\n' {
        crlf_to_lf(s.subrange(1, s.len() as int))
    } else {
        seq![s[0]] + crlf_to_lf(s.subrange(1, s.len() as int))
    }
}

/// `s` with each `"\n"` turned into `"\r\n"`.
pub open spec fn lf_to_crlf(s: Seq<char>) -> Seq<char>
    decreases s.len(),
{
    if s.len() == 0 {
        s
    } else if s.last() == '\n' {
        lf_to_crlf(s.drop_last()) + seq!['\r', '\n']
    } else {
        lf_to_crlf(s.drop_last()).push(s.last())
    }
}

/// The style detected in a text: CRLF as soon as one `"\r\n"` occurs.
pub open spec fn detected_ending(s: Seq<char>) -> LineEnding {
    if has_crlf(s) {
        LineEnding::Crlf
    } else {
        LineEnding::Lf
    }
}

/// `s` written out with the given line ending.
pub open spec fn with_ending(s: Seq<char>, ending: LineEnding) -> Seq<char> {
    match ending {
        LineEnding::Lf => s,
        LineEnding::Crlf => lf_to_crlf(s),
    }
}

impl LineEnding {
    /// Get the string representation of the line ending
    pub fn as_str(&self) -> (r: &'static str)
        ensures
            r@ == (match self {
                LineEnding::Lf => seq!['\n'],
                LineEnding::Crlf => seq!['\r', '\n'],
            }),
    {
        proof {
            reveal_strlit("\n");
            reveal_strlit("\r\n");
        }
        match self {
            LineEnding::Lf => "\n",
            LineEnding::Crlf => "\r\n",
        }
    }

    /// Get display name
    pub fn display_name(&self) -> (r: &'static str)
        ensures
            r@ == (match self {
                LineEnding::Lf => "LF"@,
                LineEnding::Crlf => "CRLF"@,
            }),
    {
        match self {
            LineEnding::Lf => "LF",
            LineEnding::Crlf => "CRLF",
        }
    }

    /// Detect line ending from text
    pub fn detect(text: &str) -> (r: Self)
        ensures
            r == detected_ending(text@),
    {
        let n = text.unicode_len();
        let mut i: usize = 0;
        let mut prev_cr = false;
        while i < n
            invariant
                n == text@.len(),
                i <= n,
                prev_cr == (i > 0 && text@[i - 1] == '\r'),
                forall|j: int| 0 <= j < i - 1 ==> !(#[trigger] text@[j] == '\r' && text@[j + 1] == '\n'),
            decreases n - i,
        {
            let c = text.get_char(i);
            if prev_cr && c == '\n' {
                assert(text@[i - 1] == '\r' && text@[i - 1 + 1] == '\n');
                return LineEnding::Crlf;
            }
            prev_cr = c == '\r';
            i = i + 1;
        }
        LineEnding::Lf
    }
}

impl Default for LineEnding {
    fn default() -> (r: Self)
        ensures
            r == LineEnding::Lf,
    {
        LineEnding::Lf
    }
}

/// `s` with each `"\r\n"` turned into `"\n"`.
fn normalize_crlf(text: &str) -> (r: String)
    ensures
        r@ == crlf_to_lf(text@),
{
    let n = text.unicode_len();
    let mut out = String::new();
    let mut i: usize = n;
    // Built back to front, so each step prepends to a known suffix.
    let mut rev: Vec<char> = Vec::new();
    while i > 0
        invariant
            n == text@.len(),
            i <= n,
            rev@.reverse() == crlf_to_lf(text@.subrange(i as int, n as int)),
        decreases i,
    {
        let c = text.get_char(i - 1);
        let ghost t = text@.subrange(i - 1, n as int);
        assert(t.subrange(1, t.len() as int) =~= text@.subrange(i as int, n as int));
        if c == '\r' && i < n && text.get_char(i) == '\n' {
        } else {
            rev.push(c);
            assert(rev@.reverse() =~= seq![c] + crlf_to_lf(text@.subrange(i as int, n as int)));
        }
        i = i - 1;
    }
    assert(text@.subrange(0, n as int) =~= text@);
    let mut k: usize = rev.len();
    while k > 0
        invariant
            k <= rev@.len(),
            out@ == rev@.reverse().subrange(0, rev@.len() - k),
        decreases k,
    {
        crate::utils::push_char(&mut out, rev[k - 1]);
        assert(out@ =~= rev@.reverse().subrange(0, rev@.len() - (k - 1)));
        k = k - 1;
    }
    assert(out@ =~= rev@.reverse());
    out
}

/// `s` with each `"\n"` turned into `"\r\n"`.
fn expand_lf(s: &String) -> (r: String)
    ensures
        r@ == lf_to_crlf(s@),
{
    let n = s.as_str().unicode_len();
    let mut out = String::new();
    let mut i: usize = 0;
    while i < n
        invariant
            n == s@.len(),
            i <= n,
            out@ == lf_to_crlf(s@.subrange(0, i as int)),
        decreases n - i,
    {
        let c = s.as_str().get_char(i);
        assert(s@.subrange(0, i + 1).drop_last() =~= s@.subrange(0, i as int));
        if c == '\n' {
            crate::utils::push_char(&mut out, '\r');
            crate::utils::push_char(&mut out, '\n');
            assert(out@ =~= lf_to_crlf(s@.subrange(0, i as int)) + seq!['\r', '\n']);
        } else {
            crate::utils::push_char(&mut out, c);
        }
        i = i + 1;
    }
    assert(s@.subrange(0, n as int) =~= s@);
    out
}

/// Without carriage returns, turning CRLF into LF changes nothing.
pub proof fn lemma_no_cr_unchanged(s: Seq<char>)
    requires
        forall|i: int| 0 <= i < s.len() ==> s[i] != '\r',
    ensures
        crlf_to_lf(s) == s,
        !has_crlf(s),
    decreases s.len(),
{
    if s.len() > 0 {
        let t = s.subrange(1, s.len() as int);
        assert forall|i: int| 0 <= i < t.len() implies t[i] != '\r' by {
            assert(t[i] == s[i + 1]);
        }
        lemma_no_cr_unchanged(t);
        assert(seq![s[0]] + t =~= s);
    }
}

/// Convert (line, column) to a character offset in a rope; the column is
/// clamped to the line's length (its newline excluded), and a line past the
/// last gives `None`
pub fn line_col_to_char(rope: &Rope, line: usize, col: usize) -> (r: Option<usize>)
    ensures
        line > count_nl(rope_chars(*rope)) ==> r is None,
        line <= count_nl(rope_chars(*rope)) ==> r == Some(
            offset_of(rope_chars(*rope), line as nat, col as nat) as usize,
        ),
        r matches Some(i) ==> i <= rope_chars(*rope).len(),
        line <= count_nl(rope_chars(*rope)) ==> 0 <= offset_of(rope_chars(*rope), line as nat, col as nat)
            <= rope_chars(*rope).len(),
        rope_chars(*rope).len() <= usize::MAX,
{
    let len = rope_len_chars(rope);
    let lines = rope_len_lines(rope);
    if line >= lines {
        return None;
    }
    proof {
        lemma_line_bounds(rope_chars(*rope), line as nat);
    }
    let start = rope_line_to_char(rope, line);
    let end = if line + 1 < lines {
        rope_line_to_char(rope, line + 1) - 1
    } else {
        len
    };
    let line_len = end - start;
    let clamped_col = if col < line_len {
        col
    } else {
        line_len
    };
    Some(start + clamped_col)
}

/// Every line break of `s` is a carriage return followed by a line feed:
/// no lone `'\r'` and no lone `'\n'`.
pub open spec fn strictly_crlf(s: Seq<char>) -> bool {
    &&& forall|i: int| 0 <= i < s.len() && #[trigger] s[i] == '\n' ==> i > 0 && s[i - 1] == '\r'
    &&& forall|i: int| 0 <= i < s.len() && #[trigger] s[i] == '\r' ==> i + 1 < s.len() && s[i + 1]
        == '\n'
}

proof fn lemma_lf_to_crlf_concat(a: Seq<char>, b: Seq<char>)
    ensures
        lf_to_crlf(a + b) == lf_to_crlf(a) + lf_to_crlf(b),
    decreases b.len(),
{
    if b.len() == 0 {
        assert(a + b =~= a);
        assert(lf_to_crlf(a) + lf_to_crlf(b) =~= lf_to_crlf(a));
    } else {
        assert((a + b).drop_last() =~= a + b.drop_last());
        assert((a + b).last() == b.last());
        lemma_lf_to_crlf_concat(a, b.drop_last());
        if b.last() == '\n' {
            assert(lf_to_crlf(a) + lf_to_crlf(b.drop_last()) + seq!['\r', '\n'] =~= lf_to_crlf(a) + (
            lf_to_crlf(b.drop_last()) + seq!['\r', '\n']));
        } else {
            assert((lf_to_crlf(a) + lf_to_crlf(b.drop_last())).push(b.last()) =~= lf_to_crlf(a) + lf_to_crlf(
                b.drop_last(),
            ).push(b.last()));
        }
    }
}

proof fn lemma_strict_crlf_restored(s: Seq<char>)
    requires
        strictly_crlf(s),
    ensures
        lf_to_crlf(crlf_to_lf(s)) == s,
    decreases s.len(),
{
    if s.len() > 0 {
        let t = s.subrange(1, s.len() as int);
        if s[0] == '\n' {
            assert(false);
        } else if s[0] == '\r' {
            assert(s[1] == '\n');
            let rest = s.subrange(2, s.len() as int);
            assert forall|i: int| 0 <= i < rest.len() && #[trigger] rest[i] == '\n' implies i > 0 && rest[i
                - 1] == '\r' by {
                assert(rest[i] == s[i + 2]);
                if i == 0 {
                    assert(s[1] == '\r');
                } else {
                    assert(rest[i - 1] == s[i + 1]);
                }
            }
            assert forall|i: int| 0 <= i < rest.len() && #[trigger] rest[i] == '\r' implies i + 1 < rest.len()
                && rest[i + 1] == '\n' by {
                assert(rest[i] == s[i + 2]);
                assert(s[i + 3] == '\n');
                assert(rest[i + 1] == s[i + 3]);
            }
            lemma_strict_crlf_restored(rest);
            assert(t.subrange(1, t.len() as int) =~= rest);
            assert(t[0] == '\n');
            assert(crlf_to_lf(t) == seq![t[0]] + crlf_to_lf(rest));
            assert(crlf_to_lf(s) == crlf_to_lf(t));
            lemma_lf_to_crlf_concat(seq!['\n'], crlf_to_lf(rest));
            let nl = seq!['\n'];
            assert(nl.drop_last() =~= Seq::<char>::empty());
            assert(nl.last() == '\n');
            assert(lf_to_crlf(Seq::<char>::empty()) == Seq::<char>::empty());
            assert(lf_to_crlf(nl) == lf_to_crlf(nl.drop_last()) + seq!['\r', '\n']);
            assert(lf_to_crlf(nl) =~= seq!['\r', '\n']);
            assert(seq!['\r', '\n'] + rest =~= s);
        } else {
            assert forall|i: int| 0 <= i < t.len() && #[trigger] t[i] == '\n' implies i > 0 && t[i - 1] == '\r' by {
                assert(t[i] == s[i + 1]);
                if i == 0 {
                    assert(s[0] == '\r');
                } else {
                    assert(t[i - 1] == s[i]);
                }
            }
            assert forall|i: int| 0 <= i < t.len() && #[trigger] t[i] == '\r' implies i + 1 < t.len() && t[i + 1]
                == '\n' by {
                assert(t[i] == s[i + 1]);
                assert(t[i + 1] == s[i + 2]);
            }
            lemma_strict_crlf_restored(t);
            assert(!(s.len() >= 2 && s[0] == '\r' && s[1] == '\n'));
            assert(crlf_to_lf(s) == seq![s[0]] + crlf_to_lf(t));
            lemma_lf_to_crlf_concat(seq![s[0]], crlf_to_lf(t));
            let one = seq![s[0]];
            assert(one.drop_last() =~= Seq::<char>::empty());
            assert(one.last() == s[0]);
            assert(lf_to_crlf(Seq::<char>::empty()) == Seq::<char>::empty());
            assert(lf_to_crlf(one) == lf_to_crlf(one.drop_last()).push(s[0]));
            assert(lf_to_crlf(one) =~= seq![s[0]]);
            assert(seq![s[0]] + t =~= s);
        }
    }
}

/// A text whose line breaks are all CRLF, with at least one, is held with
/// LF endings and comes out of a fresh buffer unchanged.
pub proof fn lemma_crlf_round_trip(s: Seq<char>)
    requires
        strictly_crlf(s),
        has_crlf(s),
    ensures
        from_text(s).line_ending == LineEnding::Crlf,
        output(from_text(s)) == s,
{
    lemma_strict_crlf_restored(s);
}

// ---------------------------------------------------------------------------
// The buffer.

/// What a buffer holds: its text (LF line endings), the style to write it
/// out with, and its change counters.
pub struct BufferModel {
    pub text: Seq<char>,
    pub line_ending: LineEnding,
    pub version: u64,
    pub modified: bool,
    pub saved_version: u64,
}

/// A buffer freshly made from `s`.
pub open spec fn from_text(s: Seq<char>) -> BufferModel {
    BufferModel {
        text: crlf_to_lf(s),
        line_ending: detected_ending(s),
        version: 0,
        modified: false,
        saved_version: 0,
    }
}

/// The text written out with the buffer's line ending.
pub open spec fn output(m: BufferModel) -> Seq<char> {
    with_ending(m.text, m.line_ending)
}

/// `idx` clamped to the length of `s`.
pub open spec fn clamp_index(s: Seq<char>, idx: int) -> int {
    if idx <= s.len() {
        idx
    } else {
        s.len() as int
    }
}

/// The model after inserting `t` at `idx` (clamped).
pub open spec fn after_insert(m: BufferModel, idx: int, t: Seq<char>) -> BufferModel {
    let i = clamp_index(m.text, idx);
    BufferModel {
        text: m.text.subrange(0, i) + t + m.text.subrange(i, m.text.len() as int),
        version: (m.version + 1) as u64,
        modified: true,
        ..m
    }
}

/// The model after deleting `start..end` (both clamped); nothing changes
/// when the clamped range is empty.
pub open spec fn after_delete(m: BufferModel, start: int, end: int) -> BufferModel {
    let a = clamp_index(m.text, start);
    let b = clamp_index(m.text, end);
    if a < b {
        BufferModel {
            text: m.text.subrange(0, a) + m.text.subrange(b, m.text.len() as int),
            version: (m.version + 1) as u64,
            modified: true,
            ..m
        }
    } else {
        m
    }
}

/// A text without carriage returns comes out of a fresh buffer unchanged.
pub proof fn lemma_round_trip(s: Seq<char>)
    requires
        forall|i: int| 0 <= i < s.len() ==> s[i] != '\r',
    ensures
        output(from_text(s)) == s,
{
    lemma_no_cr_unchanged(s);
}

/// Inserting a non-empty text and then deleting the range it took restores
/// the text, and counts as two changes.
pub proof fn lemma_insert_delete_inverse(m: BufferModel, i: nat, t: Seq<char>)
    requires
        i <= m.text.len(),
        t.len() > 0,
        m.version + 2 <= u64::MAX,
    ensures
        after_delete(after_insert(m, i as int, t), i as int, (i + t.len()) as int).text == m.text,
        after_delete(after_insert(m, i as int, t), i as int, (i + t.len()) as int).version == m.version + 2,
{
    let m1 = after_insert(m, i as int, t);
    assert(m1.text.subrange(0, i as int) =~= m.text.subrange(0, i as int));
    assert(m1.text.subrange((i + t.len()) as int, m1.text.len() as int) =~= m.text.subrange(
        i as int,
        m.text.len() as int,
    ));
    assert(m.text.subrange(0, i as int) + m.text.subrange(i as int, m.text.len() as int)
        =~= m.text);
}

/// Word containing offset `i` extends left to here.
pub open spec fn word_start(s: Seq<char>, i: int) -> int
    decreases i,
{
    if 0 < i <= s.len() && is_word_char(s[i - 1]) {
        word_start(s, i - 1)
    } else {
        i
    }
}

/// Word containing offset `i` extends right to here.
pub open spec fn word_end(s: Seq<char>, i: int) -> int
    decreases s.len() - i,
{
    if 0 <= i < s.len() && is_word_char(s[i]) {
        word_end(s, i + 1)
    } else {
        i
    }
}

/// From `i`, skip characters whose alphanumeric class is `b`.
pub open spec fn run_end(s: Seq<char>, i: int, b: bool) -> int
    decreases s.len() - i,
{
    if 0 <= i < s.len() && alphanumeric(s[i]) == b {
        run_end(s, i + 1, b)
    } else {
        i
    }
}

/// Back from `i`, skip characters whose alphanumeric class is `b`.
pub open spec fn run_start(s: Seq<char>, i: int, b: bool) -> int
    decreases i,
{
    if 0 < i <= s.len() && alphanumeric(s[i - 1]) == b {
        run_start(s, i - 1, b)
    } else {
        i
    }
}

/// From `i`, skip blanks (whitespace other than a line break).
pub open spec fn blanks_end(s: Seq<char>, i: int) -> int
    decreases s.len() - i,
{
    if 0 <= i < s.len() && is_blank(s[i]) {
        blanks_end(s, i + 1)
    } else {
        i
    }
}

/// Back from `i`, skip blanks.
pub open spec fn blanks_start(s: Seq<char>, i: int) -> int
    decreases i,
{
    if 0 < i <= s.len() && is_blank(s[i - 1]) {
        blanks_start(s, i - 1)
    } else {
        i
    }
}

/// Next word boundary: past the run of the class found at `i`, then past
/// the blanks after it.
pub open spec fn next_boundary(s: Seq<char>, i: int) -> int {
    if i >= s.len() {
        s.len() as int
    } else {
        blanks_end(s, run_end(s, i, alphanumeric(s[i])))
    }
}

/// Previous word boundary: back over blanks, then back over the run of the
/// class found before that.
pub open spec fn prev_boundary(s: Seq<char>, i: int) -> int {
    let j = blanks_start(s, i);
    if j == 0 {
        0
    } else {
        run_start(s, j, alphanumeric(s[j - 1]))
    }
}

/// Number of maximal runs of non-whitespace characters.
pub open spec fn count_words(s: Seq<char>) -> nat
    decreases s.len(),
{
    if s.len() == 0 {
        0
    } else {
        count_words(s.drop_last()) + if !whitespace(s.last()) && (s.len() == 1 || whitespace(
            s[s.len() - 2],
        )) {
            1nat
        } else {
            0nat
        }
    }
}

/// Text buffer: a rope with line-ending style and change tracking.
#[derive(Debug, Clone)]
pub struct TextBuffer {
    rope: Rope,
    line_ending: LineEnding,
    version: u64,
    modified: bool,
    saved_version: u64,
}

impl View for TextBuffer {
    type V = BufferModel;

    closed spec fn view(&self) -> BufferModel {
        BufferModel {
            text: rope_chars(self.rope),
            line_ending: self.line_ending,
            version: self.version,
            modified: self.modified,
            saved_version: self.saved_version,
        }
    }
}

impl TextBuffer {
    /// Create an empty text buffer
    pub fn new() -> (r: Self)
        ensures
            r@ == from_text(Seq::empty()),
    {
        proof {
            assert(!has_crlf(Seq::<char>::empty()));
        }
        TextBuffer {
            rope: rope_new(),
            line_ending: LineEnding::Lf,
            version: 0,
            modified: false,
            saved_version: 0,
        }
    }

    /// Create a buffer from a string, detecting its line ending and holding
    /// its text with LF endings
    pub fn from_str(text: &str) -> (r: Self)
        ensures
            r@ == from_text(text@),
    {
        let line_ending = LineEnding::detect(text);
        let normalized = normalize_crlf(text);
        TextBuffer {
            rope: rope_from_str(normalized.as_str()),
            line_ending,
            version: 0,
            modified: false,
            saved_version: 0,
        }
    }

    /// Get the underlying rope
    pub fn rope(&self) -> (r: &Rope)
        ensures
            rope_chars(*r) == self@.text,
    {
        &self.rope
    }

    /// Get the current version number
    pub fn version(&self) -> (r: u64)
        ensures
            r == self@.version,
    {
        self.version
    }

    /// Get line ending style
    pub fn line_ending(&self) -> (r: LineEnding)
        ensures
            r == self@.line_ending,
    {
        self.line_ending
    }

    /// Set line ending style
    pub fn set_line_ending(&mut self, ending: LineEnding)
        requires
            old(self)@.version < u64::MAX,
        ensures
            final(self)@ == (BufferModel {
                line_ending: ending,
                version: (old(self)@.version + 1) as u64,
                modified: true,
                ..old(self)@
            }),
    {
        self.line_ending = ending;
        self.version = self.version + 1;
        self.modified = true;
    }

    /// Check if buffer has been modified since last save
    pub fn is_modified(&self) -> (r: bool)
        ensures
            r == (self@.modified || self@.version != self@.saved_version),
    {
        self.modified || self.version != self.saved_version
    }

    /// Mark buffer as saved
    pub fn mark_saved(&mut self)
        ensures
            final(self)@ == (BufferModel {
                modified: false,
                saved_version: old(self)@.version,
                ..old(self)@
            }),
    {
        self.modified = false;
        self.saved_version = self.version;
    }

    /// Get total character count
    pub fn len_chars(&self) -> (r: usize)
        ensures
            r == self@.text.len(),
    {
        rope_len_chars(&self.rope)
    }

    /// Get total line count (at least one)
    pub fn len_lines(&self) -> (r: usize)
        ensures
            r == count_nl(self@.text) + 1,
    {
        rope_len_lines(&self.rope)
    }

    /// Check if buffer is empty
    pub fn is_empty(&self) -> (r: bool)
        ensures
            r == (self@.text.len() == 0),
    {
        rope_len_chars(&self.rope) == 0
    }

    /// Offset just past line `line_idx`, its newline included.
    fn line_end_with_newline(&self, line_idx: usize) -> (r: usize)
        requires
            line_idx <= count_nl(self@.text),
        ensures
            r == (if line_idx < count_nl(self@.text) {
                line_start(self@.text, (line_idx + 1) as nat)
            } else {
                self@.text.len() as int
            }),
    {
        let lines = rope_len_lines(&self.rope);
        if line_idx + 1 < lines {
            rope_line_to_char(&self.rope, line_idx + 1)
        } else {
            rope_len_chars(&self.rope)
        }
    }

    /// Get a specific line (0-indexed), with its newline if it has one
    pub fn line(&self, line_idx: usize) -> (r: Option<String>)
        ensures
            line_idx > count_nl(self@.text) ==> r is None,
            line_idx <= count_nl(self@.text) ==> (r matches Some(l) && l@ == self@.text.subrange(
                line_start(self@.text, line_idx as nat),
                if line_idx < count_nl(self@.text) {
                    line_start(self@.text, (line_idx + 1) as nat)
                } else {
                    self@.text.len() as int
                },
            )),
    {
        let lines = rope_len_lines(&self.rope);
        if line_idx >= lines {
            return None;
        }
        proof {
            lemma_line_bounds(self@.text, line_idx as nat);
        }
        let start = rope_line_to_char(&self.rope, line_idx);
        let end = self.line_end_with_newline(line_idx);
        Some(rope_slice_string(&self.rope, start, end))
    }

    /// Get a line without the trailing newline
    pub fn line_without_newline(&self, line_idx: usize) -> (r: Option<String>)
        ensures
            line_idx > count_nl(self@.text) ==> r is None,
            line_idx <= count_nl(self@.text) ==> (r matches Some(l) && l@ == self@.text.subrange(
                line_start(self@.text, line_idx as nat),
                line_end(self@.text, line_idx as nat),
            )),
    {
        let lines = rope_len_lines(&self.rope);
        if line_idx >= lines {
            return None;
        }
        proof {
            lemma_line_bounds(self@.text, line_idx as nat);
        }
        let start = rope_line_to_char(&self.rope, line_idx);
        let end = if line_idx + 1 < lines {
            rope_line_to_char(&self.rope, line_idx + 1) - 1
        } else {
            rope_len_chars(&self.rope)
        };
        Some(rope_slice_string(&self.rope, start, end))
    }

    /// Get the length of a specific line (in characters, excluding newline)
    pub fn line_len(&self, line_idx: usize) -> (r: Option<usize>)
        ensures
            line_idx > count_nl(self@.text) ==> r is None,
            line_idx <= count_nl(self@.text) ==> r == Some(
                line_length(self@.text, line_idx as nat) as usize,
            ),
            line_idx <= count_nl(self@.text) ==> 0 <= line_length(self@.text, line_idx as nat)
                <= self@.text.len(),
            self@.text.len() <= usize::MAX,
    {
        let _len = rope_len_chars(&self.rope);
        let lines = rope_len_lines(&self.rope);
        if line_idx >= lines {
            return None;
        }
        proof {
            lemma_line_bounds(self@.text, line_idx as nat);
        }
        let start = rope_line_to_char(&self.rope, line_idx);
        let end = if line_idx + 1 < lines {
            rope_line_to_char(&self.rope, line_idx + 1) - 1
        } else {
            rope_len_chars(&self.rope)
        };
        Some(end - start)
    }

    /// Convert (line, column) to character offset; the column is clamped to
    /// the line's length, and a line past the last gives `None`
    pub fn line_col_to_char(&self, line: usize, col: usize) -> (r: Option<usize>)
        ensures
            line > count_nl(self@.text) ==> r is None,
            line <= count_nl(self@.text) ==> r == Some(
                offset_of(self@.text, line as nat, col as nat) as usize,
            ),
            r matches Some(i) ==> i <= self@.text.len(),
            line <= count_nl(self@.text) ==> 0 <= offset_of(self@.text, line as nat, col as nat)
                <= self@.text.len(),
            self@.text.len() <= usize::MAX,
    {
        line_col_to_char(&self.rope, line, col)
    }

    /// Convert character offset to (line, column), the offset clamped to
    /// the text's length first
    pub fn char_to_line_col(&self, char_idx: usize) -> (r: (usize, usize))
        ensures
            r.0 == position_of(self@.text, char_idx as nat).0,
            r.1 == position_of(self@.text, char_idx as nat).1,
            r.0 <= count_nl(self@.text),
            r.1 <= line_length(self@.text, r.0 as nat),
    {
        let len = rope_len_chars(&self.rope);
        let idx = if char_idx < len {
            char_idx
        } else {
            len
        };
        proof {
            lemma_position_in_line(self@.text, idx as int);
            lemma_line_bounds(self@.text, count_nl(self@.text.subrange(0, idx as int)));
        }
        let line = rope_char_to_line(&self.rope, idx);
        let ls = rope_line_to_char(&self.rope, line);
        (line, idx - ls)
    }

    /// Insert text at character position (clamped to the length)
    pub fn insert(&mut self, char_idx: usize, text: &str)
        requires
            old(self)@.version < u64::MAX,
        ensures
            final(self)@ == after_insert(old(self)@, char_idx as int, text@),
    {
        let len = rope_len_chars(&self.rope);
        let idx = if char_idx < len {
            char_idx
        } else {
            len
        };
        rope_insert(&mut self.rope, idx, text);
        self.version = self.version + 1;
        self.modified = true;
    }

    /// Insert string at character position (alias for insert)
    pub fn insert_str(&mut self, char_idx: usize, text: &str)
        requires
            old(self)@.version < u64::MAX,
        ensures
            final(self)@ == after_insert(old(self)@, char_idx as int, text@),
    {
        self.insert(char_idx, text);
    }

    /// Insert text at (line, column); at the end when the line is past the last
    pub fn insert_at(&mut self, line: usize, col: usize, text: &str)
        requires
            old(self)@.version < u64::MAX,
        ensures
            final(self)@ == after_insert(
                old(self)@,
                if line <= count_nl(old(self)@.text) {
                    offset_of(old(self)@.text, line as nat, col as nat)
                } else {
                    old(self)@.text.len() as int
                },
                text@,
            ),
    {
        match self.line_col_to_char(line, col) {
            Some(char_idx) => self.insert(char_idx, text),
            None => {
                let len = rope_len_chars(&self.rope);
                self.insert(len, text);
            },
        }
    }

    /// Insert a single character
    pub fn insert_char(&mut self, char_idx: usize, ch: char)
        requires
            old(self)@.version < u64::MAX,
        ensures
            final(self)@ == after_insert(old(self)@, char_idx as int, seq![ch]),
    {
        let mut s = String::new();
        crate::utils::push_char(&mut s, ch);
        assert(s@ =~= seq![ch]);
        self.insert(char_idx, s.as_str());
    }

    /// Delete a range of characters (both ends clamped; empty is a no-op)
    pub fn delete(&mut self, range: Range<usize>)
        requires
            old(self)@.version < u64::MAX,
        ensures
            final(self)@ == after_delete(old(self)@, range.start as int, range.end as int),
    {
        let len = rope_len_chars(&self.rope);
        let start = if range.start < len {
            range.start
        } else {
            len
        };
        let end = if range.end < len {
            range.end
        } else {
            len
        };
        if start < end {
            rope_remove(&mut self.rope, start, end);
            self.version = self.version + 1;
            self.modified = true;
        }
    }

    /// Delete a range by character indices (start inclusive, end exclusive)
    pub fn delete_range(&mut self, start_char: usize, end_char: usize)
        requires
            old(self)@.version < u64::MAX,
        ensures
            final(self)@ == after_delete(old(self)@, start_char as int, end_char as int),
    {
        self.delete(start_char..end_char);
    }

    /// Delete from (line, col) to (line, col); a start line past the last
    /// counts as 0, an end line past the last as the length
    pub fn delete_by_line_col(
        &mut self,
        start_line: usize,
        start_col: usize,
        end_line: usize,
        end_col: usize,
    )
        requires
            old(self)@.version < u64::MAX,
        ensures
            final(self)@ == after_delete(
                old(self)@,
                if start_line <= count_nl(old(self)@.text) {
                    offset_of(old(self)@.text, start_line as nat, start_col as nat)
                } else {
                    0
                },
                if end_line <= count_nl(old(self)@.text) {
                    offset_of(old(self)@.text, end_line as nat, end_col as nat)
                } else {
                    old(self)@.text.len() as int
                },
            ),
    {
        let start = match self.line_col_to_char(start_line, start_col) {
            Some(i) => i,
            None => 0,
        };
        let end = match self.line_col_to_char(end_line, end_col) {
            Some(i) => i,
            None => rope_len_chars(&self.rope),
        };
        self.delete(start..end);
    }

    /// Replace a range of characters: delete it, then insert at its start
    pub fn replace(&mut self, range: Range<usize>, text: &str)
        requires
            old(self)@.version + 2 <= u64::MAX,
        ensures
            final(self)@ == after_insert(
                after_delete(old(self)@, range.start as int, range.end as int),
                range.start as int,
                text@,
            ),
    {
        let start = range.start;
        self.delete(range);
        self.insert(start, text);
    }

    /// Get a slice of the buffer as a string (Range version)
    pub fn slice_range(&self, range: Range<usize>) -> (r: String)
        ensures
            ({
                let a = clamp_index(self@.text, range.start as int);
                let b = clamp_index(self@.text, range.end as int);
                r@ == if a < b { self@.text.subrange(a, b) } else { Seq::empty() }
            }),
    {
        let len = rope_len_chars(&self.rope);
        let start = if range.start < len {
            range.start
        } else {
            len
        };
        let end = if range.end < len {
            range.end
        } else {
            len
        };
        if start >= end {
            return String::new();
        }
        rope_slice_string(&self.rope, start, end)
    }

    /// Get a slice of the buffer as a string (start and end char indices)
    pub fn slice(&self, start_char: usize, end_char: usize) -> (r: String)
        ensures
            ({
                let a = clamp_index(self@.text, start_char as int);
                let b = clamp_index(self@.text, end_char as int);
                r@ == if a < b { self@.text.subrange(a, b) } else { Seq::empty() }
            }),
    {
        self.slice_range(start_char..end_char)
    }

    /// Get the entire buffer contents, with the buffer's line ending
    pub fn to_string(&self) -> (r: String)
        ensures
            r@ == output(self@),
    {
        let content = rope_string(&self.rope);
        match self.line_ending {
            LineEnding::Crlf => expand_lf(&content),
            LineEnding::Lf => content,
        }
    }

    /// Get contents with specific line ending
    pub fn to_string_with_ending(&self, ending: LineEnding) -> (r: String)
        ensures
            r@ == with_ending(self@.text, ending),
    {
        let content = rope_string(&self.rope);
        match ending {
            LineEnding::Lf => content,
            LineEnding::Crlf => expand_lf(&content),
        }
    }

    /// Set the entire buffer contents, detecting the line ending again
    pub fn set_content(&mut self, text: &str)
        requires
            old(self)@.version < u64::MAX,
        ensures
            final(self)@ == (BufferModel {
                text: crlf_to_lf(text@),
                line_ending: detected_ending(text@),
                version: (old(self)@.version + 1) as u64,
                ..old(self)@
            }),
    {
        self.line_ending = LineEnding::detect(text);
        let normalized = normalize_crlf(text);
        self.rope = rope_from_str(normalized.as_str());
        self.version = self.version + 1;
    }

    /// Get character at position
    pub fn char_at(&self, char_idx: usize) -> (r: Option<char>)
        ensures
            r == (if char_idx < self@.text.len() {
                Some(self@.text[char_idx as int])
            } else {
                None
            }),
    {
        if char_idx >= rope_len_chars(&self.rope) {
            return None;
        }
        Some(rope_char(&self.rope, char_idx))
    }

    /// Whether the character at `idx` belongs to a word.
    fn is_word_at(&self, idx: usize) -> (r: bool)
        requires
            idx < self@.text.len(),
        ensures
            r == is_word_char(self@.text[idx as int]),
    {
        let ch = rope_char(&self.rope, idx);
        char_is_alphanumeric(ch) || ch == '_'
    }

    /// Whether the character at `idx` is a blank (whitespace, not newline).
    fn is_blank_at(&self, idx: usize) -> (r: bool)
        requires
            idx < self@.text.len(),
        ensures
            r == is_blank(self@.text[idx as int]),
    {
        let ch = rope_char(&self.rope, idx);
        char_is_whitespace(ch) && ch != '\n'
    }

    /// Get the word (maximal run of alphanumerics and underscores) that
    /// holds the character at a position, as start and end offsets; `None`
    /// when that character is not part of a word or the position is past
    /// the end
    pub fn word_at(&self, char_idx: usize) -> (r: Option<(usize, usize)>)
        ensures
            ({
                let s = self@.text;
                r == if char_idx >= s.len() || !is_word_char(s[char_idx as int]) {
                    None
                } else {
                    Some(
                        (
                            word_start(s, char_idx as int) as usize,
                            word_end(s, char_idx as int) as usize,
                        ),
                    )
                }
            }),
    {
        let len = rope_len_chars(&self.rope);
        if char_idx >= len || !self.is_word_at(char_idx) {
            return None;
        }
        let ghost s = self@.text;
        let mut start = char_idx;
        while start > 0 && self.is_word_at(start - 1)
            invariant
                start <= char_idx < len == s.len(),
                s == self@.text,
                word_start(s, start as int) == word_start(s, char_idx as int),
            decreases start,
        {
            start = start - 1;
        }
        let mut end = char_idx;
        while end < len && self.is_word_at(end)
            invariant
                char_idx <= end <= len == s.len(),
                s == self@.text,
                word_end(s, end as int) == word_end(s, char_idx as int),
            decreases len - end,
        {
            end = end + 1;
        }
        Some((start, end))
    }

    /// Find next word boundary from position: past the current run of
    /// alphanumerics or non-alphanumerics, then past blanks
    pub fn next_word_boundary(&self, char_idx: usize) -> (r: usize)
        ensures
            r == next_boundary(self@.text, char_idx as int),
            char_idx <= self@.text.len() ==> char_idx <= r,
            r <= self@.text.len(),
    {
        let len = rope_len_chars(&self.rope);
        if char_idx >= len {
            return len;
        }
        let ghost s = self@.text;
        let mut idx = char_idx;
        let start_is_word = char_is_alphanumeric(rope_char(&self.rope, idx));
        while idx < len && char_is_alphanumeric(rope_char(&self.rope, idx)) == start_is_word
            invariant
                char_idx <= idx <= len == s.len(),
                s == self@.text,
                start_is_word == alphanumeric(s[char_idx as int]),
                run_end(s, idx as int, start_is_word) == run_end(
                    s,
                    char_idx as int,
                    start_is_word,
                ),
            decreases len - idx,
        {
            idx = idx + 1;
        }
        let ghost mid = idx as int;
        while idx < len && self.is_blank_at(idx)
            invariant
                char_idx <= idx <= len == s.len(),
                s == self@.text,
                blanks_end(s, idx as int) == blanks_end(s, mid),
            decreases len - idx,
        {
            idx = idx + 1;
        }
        idx
    }

    /// Find previous word boundary from position (clamped to the length):
    /// back over blanks, then back over the run of alphanumerics or
    /// non-alphanumerics before them
    pub fn prev_word_boundary(&self, char_idx: usize) -> (r: usize)
        ensures
            r == prev_boundary(self@.text, clamp_index(self@.text, char_idx as int)),
            r <= clamp_index(self@.text, char_idx as int),
    {
        let ghost s = self@.text;
        let len = rope_len_chars(&self.rope);
        let char_idx = if char_idx < len {
            char_idx
        } else {
            len
        };
        if char_idx == 0 {
            return 0;
        }
        let mut idx = char_idx;
        while idx > 0 && self.is_blank_at(idx - 1)
            invariant
                idx <= char_idx <= s.len(),
                s == self@.text,
                blanks_start(s, idx as int) == blanks_start(s, char_idx as int),
            decreases idx,
        {
            idx = idx - 1;
        }
        if idx == 0 {
            return 0;
        }
        let ghost j = idx as int;
        let start_is_word = char_is_alphanumeric(rope_char(&self.rope, idx - 1));
        while idx > 0 && char_is_alphanumeric(rope_char(&self.rope, idx - 1)) == start_is_word
            invariant
                idx <= j <= char_idx <= s.len(),
                s == self@.text,
                start_is_word == alphanumeric(s[j - 1]),
                run_start(s, idx as int, start_is_word) == run_start(s, j, start_is_word),
            decreases idx,
        {
            idx = idx - 1;
        }
        idx
    }

    /// Count words (maximal runs of non-whitespace) in the buffer
    pub fn word_count(&self) -> (r: usize)
        ensures
            r == count_words(self@.text),
    {
        let len = rope_len_chars(&self.rope);
        let ghost s = self@.text;
        let mut count: usize = 0;
        let mut prev_ws = true;
        let mut i: usize = 0;
        while i < len
            invariant
                i <= len == s.len(),
                s == self@.text,
                count == count_words(s.subrange(0, i as int)),
                count <= i,
                prev_ws == (i == 0 || whitespace(s[i - 1])),
            decreases len - i,
        {
            let ws = char_is_whitespace(rope_char(&self.rope, i));
            assert(s.subrange(0, i + 1).drop_last() =~= s.subrange(0, i as int));
            if !ws && prev_ws {
                count = count + 1;
            }
            prev_ws = ws;
            i = i + 1;
        }
        assert(s.subrange(0, len as int) =~= s);
        count
    }
}

impl Default for TextBuffer {
    fn default() -> (r: Self)
        ensures
            r@ == from_text(Seq::empty()),
    {
        TextBuffer::new()
    }
}

} // verus!
