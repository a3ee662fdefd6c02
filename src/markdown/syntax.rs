//! Line tokenizer for Markdown syntax highlighting, with GitHub Flavored
//! Markdown extensions, and a per-line cache.
//!
//! Token offsets count characters of the line.

use vstd::prelude::*;
use crate::editor::buffer::{alphanumeric, char_is_alphanumeric, char_is_whitespace, whitespace};
use crate::file_handler::recovery::{content_hash_of, simple_hash};

verus! {

/// Types of Markdown tokens recognized by the tokenizer
#[derive(Debug, Clone, Copy, PartialEq, Eq, Structural, Hash)]
pub enum TokenType {
    Heading1,
    Heading2,
    Heading3,
    Heading4,
    Heading5,
    Heading6,
    Bold,
    Italic,
    BoldItalic,
    InlineCode,
    CodeBlockDelimiter,
    CodeBlockContent,
    CodeBlockLanguage,
    Blockquote,
    UnorderedListMarker,
    OrderedListMarker,
    LinkText,
    LinkUrl,
    ImageAlt,
    ImageUrl,
    HorizontalRule,
    Strikethrough,
    TaskListUnchecked,
    TaskListChecked,
    TableDelimiter,
    TableCell,
    Autolink,
    Footnote,
    FootnoteReference,
    Frontmatter,
    PlainText,
    Escape,
}

/// A single token in a line of Markdown text
#[derive(Debug)]
pub struct Token {
    /// Type of this token
    pub token_type: TokenType,
    /// Start offset in the line
    pub start: usize,
    /// End offset in the line (exclusive)
    pub end: usize,
    /// Nested style (e.g., bold inside heading)
    pub nested_style: Option<Box<Token>>,
}

/// A token with no nested style.
pub open spec fn tok(t: TokenType, start: int, end: int) -> Token {
    Token { token_type: t, start: start as usize, end: end as usize, nested_style: None }
}

impl Token {
    pub fn new(token_type: TokenType, start: usize, end: usize) -> (r: Self)
        ensures
            r == tok(token_type, start as int, end as int),
    {
        Token { token_type, start, end, nested_style: None }
    }

    pub fn with_nested(self, nested: Token) -> (r: Self)
        ensures
            r == (Token { nested_style: Some(Box::new(nested)), ..self }),
    {
        Token { nested_style: Some(Box::new(nested)), ..self }
    }

    /// Length of this token
    pub fn len(&self) -> (r: usize)
        requires
            self.start <= self.end,
        ensures
            r == self.end - self.start,
    {
        self.end - self.start
    }

    pub fn is_empty(&self) -> (r: bool)
        requires
            self.start <= self.end,
        ensures
            r == (self.start == self.end),
    {
        self.len() == 0
    }
}

/// Line-level tokenization state for multi-line constructs
#[derive(Debug, Clone, Copy, PartialEq, Eq, Structural)]
pub enum LineState {
    /// Normal state
    Normal,
    /// Inside a fenced code block
    InCodeBlock { fence_char: char, fence_count: usize },
    /// Inside a frontmatter block
    InFrontmatter,
}

// ---------------------------------------------------------------------------
// Pieces of a line.

/// End of the run of whitespace that starts at `i`.
pub open spec fn ws_end(c: Seq<char>, i: int) -> int
    decreases c.len() - i,
{
    if 0 <= i < c.len() && whitespace(c[i]) {
        ws_end(c, i + 1)
    } else {
        i
    }
}

/// Start of the run of whitespace that ends at `j`.
pub open spec fn ws_start(c: Seq<char>, j: int) -> int
    decreases j,
{
    if 0 < j <= c.len() && whitespace(c[j - 1]) {
        ws_start(c, j - 1)
    } else {
        j
    }
}

/// `c` without its leading whitespace.
pub open spec fn trim_start(c: Seq<char>) -> Seq<char> {
    c.subrange(ws_end(c, 0), c.len() as int)
}

/// `c` without leading and trailing whitespace.
pub open spec fn trim(c: Seq<char>) -> Seq<char> {
    let a = ws_end(c, 0);
    let b = ws_start(c, c.len() as int);
    if b <= a {
        Seq::empty()
    } else {
        c.subrange(a, b)
    }
}

/// `c` begins with `p`.
pub open spec fn starts_with(c: Seq<char>, p: Seq<char>) -> bool {
    p.len() <= c.len() && c.subrange(0, p.len() as int) == p
}

/// `c` holds `p` at `i`.
pub open spec fn holds_at(c: Seq<char>, i: int, p: Seq<char>) -> bool {
    0 <= i && i + p.len() <= c.len() && c.subrange(i, i + p.len()) == p
}

/// First index at or after `i` where `c` holds `p`.
pub open spec fn find_from(c: Seq<char>, i: int, p: Seq<char>) -> Option<int>
    decreases c.len() + 1 - i,
{
    if i < 0 || i + p.len() > c.len() {
        None
    } else if c.subrange(i, i + p.len()) == p {
        Some(i)
    } else {
        find_from(c, i + 1, p)
    }
}

/// Number of copies of `ch` at the start of `c`, from `i` on.
pub open spec fn run_of(c: Seq<char>, i: int, ch: char) -> int
    decreases c.len() - i,
{
    if 0 <= i < c.len() && c[i] == ch {
        1 + run_of(c, i + 1, ch)
    } else {
        0
    }
}

// ---------------------------------------------------------------------------
// Block constructs, on the line without its leading whitespace.

/// A code fence: its character, its length and the language after it.
pub open spec fn code_fence(t: Seq<char>) -> Option<(char, int, Seq<char>)> {
    if t.len() < 3 || (t[0] != '`' && t[0] != '~') {
        None
    } else {
        let n = run_of(t, 0, t[0]);
        if n < 3 {
            None
        } else {
            Some((t[0], n, trim(t.subrange(n, t.len() as int))))
        }
    }
}

/// A heading: its level and where its text starts.
pub open spec fn heading(t: Seq<char>) -> Option<(int, int)> {
    if t.len() == 0 || t[0] != '#' {
        None
    } else {
        let level = run_of(t, 0, '#');
        if level > 6 {
            None
        } else if level < t.len() && t[level] != ' ' {
            None
        } else {
            Some((level, if level < t.len() { level + 1 } else { level }))
        }
    }
}

/// The characters of `c` that are not whitespace.
pub open spec fn non_ws(c: Seq<char>) -> Seq<char>
    decreases c.len(),
{
    if c.len() == 0 {
        c
    } else if whitespace(c.last()) {
        non_ws(c.drop_last())
    } else {
        non_ws(c.drop_last()).push(c.last())
    }
}

/// Three or more of the same rule character, whitespace aside.
pub open spec fn horizontal_rule(t: Seq<char>) -> bool {
    let n = non_ws(trim(t));
    &&& n.len() >= 3
    &&& (n[0] == '-' || n[0] == '*' || n[0] == '_')
    &&& forall|i: int| 0 <= i < n.len() ==> #[trigger] n[i] == n[0]
}

/// A bullet item: where its text starts, whether it is a task, and
/// whether the task is checked.
pub open spec fn unordered_item(t: Seq<char>) -> Option<(int, bool, bool)> {
    if t.len() == 0 || (t[0] != '-' && t[0] != '*' && t[0] != '+') {
        None
    } else if t.len() < 2 || t[1] != ' ' {
        None
    } else if t.len() >= 5 && t[2] == '[' && t[3] == ' ' && t[4] == ']' {
        Some((if t.len() > 5 && t[5] == ' ' { 6 } else { 5 }, true, false))
    } else if t.len() >= 5 && t[2] == '[' && (t[3] == 'x' || t[3] == 'X') && t[4] == ']' {
        Some((if t.len() > 5 && t[5] == ' ' { 6 } else { 5 }, true, true))
    } else {
        Some((2, false, false))
    }
}

/// An ASCII digit.
pub open spec fn is_digit(ch: char) -> bool {
    '0' <= ch <= '9'
}

/// End of the run of digits from `i`.
pub open spec fn digits_end(t: Seq<char>, i: int) -> int
    decreases t.len() - i,
{
    if 0 <= i < t.len() && is_digit(t[i]) {
        digits_end(t, i + 1)
    } else {
        i
    }
}

/// A numbered item: where its text starts.
pub open spec fn ordered_item(t: Seq<char>) -> Option<int> {
    let i = digits_end(t, 0);
    if i == 0 || i >= t.len() {
        None
    } else if (t[i] == '.' || t[i] == ')') && i + 1 < t.len() && t[i + 1] == ' ' {
        Some(i + 2)
    } else {
        None
    }
}

/// A table row: starts or ends with a pipe, or holds " | ".
pub open spec fn table_row(t: Seq<char>) -> bool {
    let u = trim(t);
    (u.len() > 0 && (u[0] == '|' || u.last() == '|')) || find_from(u, 0, seq![' ', '|', ' ']) is Some
}

// ---------------------------------------------------------------------------
// Inline constructs, on the characters `c` of a piece of text.

/// Closing run of backticks as long as the opening one (`ticks`), scanning
/// from `p` with `count` backticks seen in a row.
pub open spec fn code_close(c: Seq<char>, p: int, count: int, ticks: int) -> Option<int>
    decreases c.len() - p,
{
    if p < 0 || p >= c.len() {
        None
    } else if c[p] == '`' {
        if count + 1 == ticks {
            Some(p + 1)
        } else {
            code_close(c, p + 1, count + 1, ticks)
        }
    } else {
        code_close(c, p + 1, 0, ticks)
    }
}

/// End of an inline code span opening at `start`.
pub open spec fn inline_code(c: Seq<char>, start: int) -> Option<int> {
    let ticks = run_of(c, start, '`');
    code_close(c, start + ticks, 0, ticks)
}

/// End of the first `m` at or after `start`.
pub open spec fn closing(c: Seq<char>, start: int, m: Seq<char>) -> Option<int> {
    match find_from(c, start, m) {
        Some(p) => Some(p + m.len()),
        None => None,
    }
}

/// Scan for the matching `close` from `pos` at nesting `depth`, skipping
/// the character after a backslash: where the scan stops and the depth
/// left.
pub open spec fn scan_nested(c: Seq<char>, pos: int, depth: int, open: char, close: char) -> (int, int)
    decreases c.len() + 1 - pos,
{
    if pos < 0 || pos >= c.len() || depth <= 0 {
        (pos, depth)
    } else if c[pos] == open {
        scan_nested(c, pos + 1, depth + 1, open, close)
    } else if c[pos] == close {
        scan_nested(c, pos + 1, depth - 1, open, close)
    } else if c[pos] == '\\' {
        scan_nested(c, pos + 2, depth, open, close)
    } else {
        scan_nested(c, pos + 1, depth, open, close)
    }
}

/// A link `[text](url)` opening at `start`: where its text ends and where
/// it ends.
pub open spec fn link(c: Seq<char>, start: int) -> Option<(int, int)> {
    if start < 0 || start >= c.len() || c[start] != '[' {
        None
    } else {
        let (text_end, d) = scan_nested(c, start + 1, 1, '[', ']');
        if d != 0 || text_end >= c.len() || c[text_end] != '(' {
            None
        } else {
            let (end, d2) = scan_nested(c, text_end + 1, 1, '(', ')');
            if d2 != 0 {
                None
            } else {
                Some((text_end, end))
            }
        }
    }
}

/// End of a footnote label scanned from `p`: a closing bracket after
/// alphanumerics, dashes and underscores.
pub open spec fn footnote_from(c: Seq<char>, p: int) -> Option<int>
    decreases c.len() - p,
{
    if p < 0 || p >= c.len() {
        None
    } else if c[p] == ']' {
        Some(p + 1)
    } else if !alphanumeric(c[p]) && c[p] != '-' && c[p] != '_' {
        None
    } else {
        footnote_from(c, p + 1)
    }
}

/// A footnote reference `[^id]` opening at `start`.
pub open spec fn footnote(c: Seq<char>, start: int) -> Option<int> {
    if start + 2 >= c.len() || c[start] != '[' || c[start + 1] != '^' {
        None
    } else {
        footnote_from(c, start + 2)
    }
}

/// Where a URL stops: whitespace or one of `<>"'`.
pub open spec fn url_stop(ch: char) -> bool {
    whitespace(ch) || ch == '<' || ch == '>' || ch == '"' || ch == '\''
}

/// Punctuation dropped from the end of a URL.
pub open spec fn url_trailer(ch: char) -> bool {
    ch == '.' || ch == ',' || ch == ':' || ch == ';' || ch == '!' || ch == '?' || ch == ')'
}

/// First URL stop at or after `p`, or the end.
pub open spec fn url_stop_from(c: Seq<char>, p: int) -> int
    decreases c.len() - p,
{
    if 0 <= p < c.len() && !url_stop(c[p]) {
        url_stop_from(c, p + 1)
    } else {
        p
    }
}

/// Back from `p` over trailing punctuation, not before `start`.
pub open spec fn drop_trailers(c: Seq<char>, start: int, p: int) -> int
    decreases p - start,
{
    if p > start && 0 < p <= c.len() && url_trailer(c[p - 1]) {
        drop_trailers(c, start, p - 1)
    } else {
        p
    }
}

/// An autolink starting at `start` (its caller has seen `http://` or
/// `https://` there): its end, if longer than the scheme.
pub open spec fn autolink(c: Seq<char>, start: int) -> Option<int> {
    let p = drop_trailers(c, start, url_stop_from(c, start));
    if p > start + 7 {
        Some(p)
    } else {
        None
    }
}

/// `http://` or `https://` at `pos`.
pub open spec fn autolink_start(c: Seq<char>, pos: int) -> bool {
    holds_at(c, pos, "http://"@) || holds_at(c, pos, "https://"@)
}

/// What the inline scan does at `pos`: the tokens it emits (offsets in
/// `c`) and where it goes on.
pub open spec fn inline_step(c: Seq<char>, pos: int) -> (Seq<(TokenType, int, int)>, int) {
    let n = c.len();
    let x = c[pos];
    if x == '\\' && pos + 1 < n {
        (seq![(TokenType::Escape, pos, pos + 2)], pos + 2)
    } else if x == '`' && inline_code(c, pos) is Some {
        let e = inline_code(c, pos)->0;
        (seq![(TokenType::InlineCode, pos, e)], e)
    } else if holds_at(c, pos, "***"@) && closing(c, pos + 3, "***"@) is Some {
        let e = closing(c, pos + 3, "***"@)->0;
        (seq![(TokenType::BoldItalic, pos, e)], e)
    } else if holds_at(c, pos, "**"@) && closing(c, pos + 2, "**"@) is Some {
        let e = closing(c, pos + 2, "**"@)->0;
        (seq![(TokenType::Bold, pos, e)], e)
    } else if holds_at(c, pos, "__"@) && closing(c, pos + 2, "__"@) is Some {
        let e = closing(c, pos + 2, "__"@)->0;
        (seq![(TokenType::Bold, pos, e)], e)
    } else if holds_at(c, pos, "~~"@) && closing(c, pos + 2, "~~"@) is Some {
        let e = closing(c, pos + 2, "~~"@)->0;
        (seq![(TokenType::Strikethrough, pos, e)], e)
    } else if x == '*' && closing(c, pos + 1, "*"@) is Some {
        let e = closing(c, pos + 1, "*"@)->0;
        (seq![(TokenType::Italic, pos, e)], e)
    } else if x == '_' && closing(c, pos + 1, "_"@) is Some {
        let e = closing(c, pos + 1, "_"@)->0;
        (seq![(TokenType::Italic, pos, e)], e)
    } else if x == '!' && pos + 1 < n && c[pos + 1] == '[' && link(c, pos + 1) is Some {
        let (a, u) = link(c, pos + 1)->0;
        (seq![(TokenType::ImageAlt, pos, a), (TokenType::ImageUrl, a, u)], u)
    } else if x == '[' && link(c, pos) is Some {
        let (a, u) = link(c, pos)->0;
        (seq![(TokenType::LinkText, pos, a), (TokenType::LinkUrl, a, u)], u)
    } else if x == '[' && pos + 1 < n && c[pos + 1] == '^' && footnote(c, pos) is Some {
        let e = footnote(c, pos)->0;
        (seq![(TokenType::FootnoteReference, pos, e)], e)
    } else if autolink_start(c, pos) && autolink(c, pos) is Some {
        let e = autolink(c, pos)->0;
        (seq![(TokenType::Autolink, pos, e)], e)
    } else {
        (Seq::empty(), pos + 1)
    }
}

/// Tokens of `t`, shifted by `offset`.
pub open spec fn placed_tokens(t: Seq<(TokenType, int, int)>, offset: int) -> Seq<Token> {
    t.map_values(|x: (TokenType, int, int)| tok(x.0, x.1 + offset, x.2 + offset))
}

/// The inline tokens of `c` from `pos` on, shifted by `offset`.
pub open spec fn inline_from(c: Seq<char>, pos: int, offset: int) -> Seq<Token>
    decreases c.len() + 2 - pos,
{
    if pos < 0 || pos >= c.len() {
        Seq::empty()
    } else {
        let (t, next) = inline_step(c, pos);
        if next <= pos || next > c.len() + 1 {
            Seq::empty()
        } else {
            placed_tokens(t, offset) + inline_from(c, next, offset)
        }
    }
}

/// The heading token type of a level.
pub open spec fn heading_type(level: int) -> TokenType {
    if level == 1 {
        TokenType::Heading1
    } else if level == 2 {
        TokenType::Heading2
    } else if level == 3 {
        TokenType::Heading3
    } else if level == 4 {
        TokenType::Heading4
    } else if level == 5 {
        TokenType::Heading5
    } else {
        TokenType::Heading6
    }
}

/// Tokens of a line and the state after it, given the state before.
pub open spec fn line_tokens(line: Seq<char>, state: LineState) -> (Seq<Token>, LineState) {
    let n = line.len() as int;
    let lead = ws_end(line, 0);
    let t = trim_start(line);
    match state {
        LineState::InCodeBlock { fence_char, fence_count } => {
            let fence = Seq::new(fence_count as nat, |i: int| fence_char);
            if starts_with(t, fence) && trim(t) == trim(fence) {
                (seq![tok(TokenType::CodeBlockDelimiter, 0, n)], LineState::Normal)
            } else {
                (seq![tok(TokenType::CodeBlockContent, 0, n)], state)
            }
        },
        LineState::InFrontmatter => if t == "---"@ {
            (seq![tok(TokenType::Frontmatter, 0, n)], LineState::Normal)
        } else {
            (seq![tok(TokenType::Frontmatter, 0, n)], state)
        },
        LineState::Normal => if line == "---"@ {
            (seq![tok(TokenType::Frontmatter, 0, n)], LineState::InFrontmatter)
        } else if code_fence(t) is Some {
            let (ch, count, lang) = code_fence(t)->0;
            let delim = seq![tok(TokenType::CodeBlockDelimiter, 0, lead + 3)];
            let ls = match find_from(line, 0, lang) {
                Some(i) => i,
                None => lead + 3,
            };
            (
                if lang.len() == 0 {
                    delim
                } else {
                    delim.push(tok(TokenType::CodeBlockLanguage, ls, ls + lang.len()))
                },
                LineState::InCodeBlock { fence_char: ch, fence_count: count as usize },
            )
        } else if heading(t) is Some {
            let (level, cs) = heading(t)->0;
            (
                seq![tok(heading_type(level), 0, n)] + inline_from(
                    t.subrange(cs, t.len() as int),
                    0,
                    lead + cs,
                ),
                LineState::Normal,
            )
        } else if horizontal_rule(t) {
            (seq![tok(TokenType::HorizontalRule, 0, n)], LineState::Normal)
        } else if t.len() > 0 && t[0] == '>' {
            let cs = if t.len() > 1 && t[1] == ' ' { 2int } else { 1int };
            (
                seq![tok(TokenType::Blockquote, lead, lead + 1)] + inline_from(
                    t.subrange(cs, t.len() as int),
                    0,
                    lead + cs,
                ),
                LineState::Normal,
            )
        } else if unordered_item(t) is Some {
            let (me, task, checked) = unordered_item(t)->0;
            let kind = if !task {
                TokenType::UnorderedListMarker
            } else if checked {
                TokenType::TaskListChecked
            } else {
                TokenType::TaskListUnchecked
            };
            (
                seq![tok(kind, lead, lead + me)] + inline_from(
                    t.subrange(me, t.len() as int),
                    0,
                    lead + me,
                ),
                LineState::Normal,
            )
        } else if ordered_item(t) is Some {
            let me = ordered_item(t)->0;
            (
                seq![tok(TokenType::OrderedListMarker, lead, lead + me)] + inline_from(
                    t.subrange(me, t.len() as int),
                    0,
                    lead + me,
                ),
                LineState::Normal,
            )
        } else if find_from(t, 0, seq!['|']) is Some && table_row(t) {
            (seq![tok(TokenType::TableDelimiter, 0, n)], LineState::Normal)
        } else {
            let inl = inline_from(line, 0, 0);
            if inl.len() == 0 && n > 0 {
                (seq![tok(TokenType::PlainText, 0, n)], LineState::Normal)
            } else {
                (inl, LineState::Normal)
            }
        },
    }
}


// ---------------------------------------------------------------------------
// Executable scanning.

/// The characters of a text.
fn chars_of(s: &str) -> (r: Vec<char>)
    ensures
        r@ == s@,
{
    let n = s.unicode_len();
    let mut r: Vec<char> = Vec::new();
    let mut i: usize = 0;
    while i < n
        invariant
            n == s@.len(),
            i <= n,
            r@ == s@.subrange(0, i as int),
        decreases n - i,
    {
        r.push(s.get_char(i));
        assert(r@ =~= s@.subrange(0, i + 1));
        i = i + 1;
    }
    assert(r@ =~= s@);
    r
}

/// The characters in `a..b`.
fn slice_chars(c: &Vec<char>, a: usize, b: usize) -> (r: Vec<char>)
    requires
        a <= b <= c@.len(),
    ensures
        r@ == c@.subrange(a as int, b as int),
{
    let mut r: Vec<char> = Vec::new();
    let mut i: usize = a;
    while i < b
        invariant
            a <= i <= b <= c@.len(),
            r@ == c@.subrange(a as int, i as int),
        decreases b - i,
    {
        r.push(c[i]);
        assert(r@ =~= c@.subrange(a as int, i + 1));
        i = i + 1;
    }
    r
}

fn ws_end_exec(c: &Vec<char>, i: usize) -> (r: usize)
    requires
        i <= c@.len(),
    ensures
        r == ws_end(c@, i as int),
        i <= r <= c@.len(),
{
    let mut j = i;
    while j < c.len() && char_is_whitespace(c[j])
        invariant
            i <= j <= c@.len(),
            ws_end(c@, j as int) == ws_end(c@, i as int),
        decreases c@.len() - j,
    {
        j = j + 1;
    }
    j
}

fn ws_start_exec(c: &Vec<char>, j: usize) -> (r: usize)
    requires
        j <= c@.len(),
    ensures
        r == ws_start(c@, j as int),
        r <= j,
{
    let mut k = j;
    while k > 0 && char_is_whitespace(c[k - 1])
        invariant
            k <= j <= c@.len(),
            ws_start(c@, k as int) == ws_start(c@, j as int),
        decreases k,
    {
        k = k - 1;
    }
    k
}

fn trim_exec(c: &Vec<char>) -> (r: Vec<char>)
    ensures
        r@ == trim(c@),
        r@.len() <= c@.len(),
{
    let a = ws_end_exec(c, 0);
    let b = ws_start_exec(c, c.len());
    if b <= a {
        Vec::new()
    } else {
        slice_chars(c, a, b)
    }
}

/// Whether `c` holds `p` at `i`.
fn holds_at_exec(c: &Vec<char>, i: usize, p: &Vec<char>) -> (r: bool)
    ensures
        r == holds_at(c@, i as int, p@),
{
    let cl = c.len();
    let pl = p.len();
    if i > cl || pl > cl - i {
        return false;
    }
    let mut k: usize = 0;
    while k < pl
        invariant
            cl == c@.len(),
            pl == p@.len(),
            i + p@.len() <= c@.len(),
            k <= p@.len(),
            forall|j: int| 0 <= j < k ==> c@[i + j] == p@[j],
        decreases p@.len() - k,
    {
        if c[i + k] != p[k] {
            assert(c@.subrange(i as int, i + p@.len())[k as int] != p@[k as int]);
            return false;
        }
        k = k + 1;
    }
    assert(c@.subrange(i as int, i + p@.len()) =~= p@);
    true
}

fn find_from_exec(c: &Vec<char>, i: usize, p: &Vec<char>) -> (r: Option<usize>)
    requires
        c@.len() < usize::MAX,
    ensures
        r matches Some(k) ==> find_from(c@, i as int, p@) == Some(k as int),
        r is None ==> find_from(c@, i as int, p@) is None,
        r matches Some(k) ==> k + p@.len() <= c@.len(),
{
    let cl = c.len();
    if p.len() > c.len() {
        return None;
    }
    let mut k = i;
    while k <= c.len() - p.len()
        invariant
            cl == c@.len(),
            p@.len() <= c@.len(),
            c@.len() < usize::MAX,
            i <= k,
            find_from(c@, k as int, p@) == find_from(c@, i as int, p@),
        decreases c@.len() + 1 - k,
    {
        if holds_at_exec(c, k, p) {
            return Some(k);
        }
        k = k + 1;
    }
    None
}

fn run_of_exec(c: &Vec<char>, i: usize, ch: char) -> (r: usize)
    requires
        i <= c@.len(),
    ensures
        r == run_of(c@, i as int, ch),
        i + r <= c@.len(),
{
    let mut j = i;
    while j < c.len() && c[j] == ch
        invariant
            i <= j <= c@.len(),
            run_of(c@, i as int, ch) == (j - i) + run_of(c@, j as int, ch),
        decreases c@.len() - j,
    {
        j = j + 1;
    }
    j - i
}

fn code_fence_exec(t: &Vec<char>) -> (r: Option<(char, usize, Vec<char>)>)
    ensures
        r is Some == code_fence(t@) is Some,
        r matches Some(x) ==> code_fence(t@) == Some((x.0, x.1 as int, x.2@)),
        r matches Some(x) ==> 3 <= x.1 <= t@.len(),
        r matches Some(x) ==> x.1 + x.2@.len() <= t@.len(),
{
    if t.len() < 3 || (t[0] != '`' && t[0] != '~') {
        return None;
    }
    let n = run_of_exec(t, 0, t[0]);
    if n < 3 {
        return None;
    }
    let rest = slice_chars(t, n, t.len());
    Some((t[0], n, trim_exec(&rest)))
}

fn heading_exec(t: &Vec<char>) -> (r: Option<(usize, usize)>)
    ensures
        r is Some == heading(t@) is Some,
        r matches Some(x) ==> heading(t@) == Some((x.0 as int, x.1 as int)),
        r matches Some(x) ==> x.1 <= t@.len(),
{
    if t.len() == 0 || t[0] != '#' {
        return None;
    }
    let level = run_of_exec(t, 0, '#');
    if level > 6 {
        return None;
    }
    if level < t.len() && t[level] != ' ' {
        return None;
    }
    Some((level, if level < t.len() { level + 1 } else { level }))
}

fn non_ws_exec(c: &Vec<char>) -> (r: Vec<char>)
    ensures
        r@ == non_ws(c@),
{
    let mut r: Vec<char> = Vec::new();
    let mut i: usize = 0;
    while i < c.len()
        invariant
            i <= c@.len(),
            r@ == non_ws(c@.subrange(0, i as int)),
        decreases c@.len() - i,
    {
        assert(c@.subrange(0, i + 1).drop_last() =~= c@.subrange(0, i as int));
        if !char_is_whitespace(c[i]) {
            r.push(c[i]);
        }
        i = i + 1;
    }
    assert(c@.subrange(0, c@.len() as int) =~= c@);
    r
}

fn horizontal_rule_exec(t: &Vec<char>) -> (r: bool)
    ensures
        r == horizontal_rule(t@),
{
    let trimmed = trim_exec(t);
    let n = non_ws_exec(&trimmed);
    if n.len() < 3 {
        return false;
    }
    let first = n[0];
    if first != '-' && first != '*' && first != '_' {
        return false;
    }
    assert(n@ == non_ws(trim(t@)));
    let mut i: usize = 0;
    while i < n.len()
        invariant
            i <= n@.len(),
            n@ == non_ws(trim(t@)),
            n@.len() >= 3,
            first == n@[0],
            forall|j: int| 0 <= j < i ==> #[trigger] n@[j] == first,
        decreases n@.len() - i,
    {
        if n[i] != first {
            assert(n@[i as int] != n@[0]);
            return false;
        }
        i = i + 1;
    }
    true
}

fn unordered_exec(t: &Vec<char>) -> (r: Option<(usize, bool, bool)>)
    ensures
        r is Some == unordered_item(t@) is Some,
        r matches Some(x) ==> unordered_item(t@) == Some((x.0 as int, x.1, x.2)),
        r matches Some(x) ==> x.0 <= t@.len(),
{
    if t.len() == 0 || (t[0] != '-' && t[0] != '*' && t[0] != '+') {
        return None;
    }
    if t.len() < 2 || t[1] != ' ' {
        return None;
    }
    if t.len() >= 5 && t[2] == '[' && t[3] == ' ' && t[4] == ']' {
        return Some((if t.len() > 5 && t[5] == ' ' { 6 } else { 5 }, true, false));
    }
    if t.len() >= 5 && t[2] == '[' && (t[3] == 'x' || t[3] == 'X') && t[4] == ']' {
        return Some((if t.len() > 5 && t[5] == ' ' { 6 } else { 5 }, true, true));
    }
    Some((2, false, false))
}

fn ordered_exec(t: &Vec<char>) -> (r: Option<usize>)
    ensures
        r is Some == ordered_item(t@) is Some,
        r matches Some(x) ==> ordered_item(t@) == Some(x as int),
        r matches Some(x) ==> x <= t@.len(),
{
    let mut i: usize = 0;
    while i < t.len() && '0' <= t[i] && t[i] <= '9'
        invariant
            i <= t@.len(),
            digits_end(t@, i as int) == digits_end(t@, 0),
        decreases t@.len() - i,
    {
        i = i + 1;
    }
    if i == 0 || i >= t.len() {
        return None;
    }
    if (t[i] == '.' || t[i] == ')') && i + 1 < t.len() && t[i + 1] == ' ' {
        Some(i + 2)
    } else {
        None
    }
}

fn table_row_exec(t: &Vec<char>) -> (r: bool)
    requires
        t@.len() < usize::MAX,
    ensures
        r == table_row(t@),
{
    let u = trim_exec(t);
    if u.len() > 0 && (u[0] == '|' || u[u.len() - 1] == '|') {
        return true;
    }
    let pat = chars_of(" | ");
    proof {
        reveal_strlit(" | ");
        assert(pat@ =~= seq![' ', '|', ' ']);
    }
    find_from_exec(&u, 0, &pat).is_some()
}

fn inline_code_exec(c: &Vec<char>, start: usize) -> (r: Option<usize>)
    requires
        start <= c@.len(),
    ensures
        r matches Some(e) ==> inline_code(c@, start as int) == Some(e as int),
        r is None ==> inline_code(c@, start as int) is None,
        r matches Some(e) ==> start < e <= c@.len(),
{
    let cl = c.len();
    let ticks = run_of_exec(c, start, '`');
    let mut p = start + ticks;
    let mut count: usize = 0;
    while p < c.len()
        invariant
            start + ticks <= p <= c@.len(),
            count < ticks || ticks == 0,
            count <= p,
            code_close(c@, p as int, count as int, ticks as int) == inline_code(c@, start as int),
        decreases c@.len() - p,
    {
        if c[p] == '`' {
            if count + 1 == ticks {
                return Some(p + 1);
            }
            count = count + 1;
        } else {
            count = 0;
        }
        p = p + 1;
    }
    None
}

fn closing_exec(c: &Vec<char>, start: usize, m: &Vec<char>) -> (r: Option<usize>)
    requires
        c@.len() < usize::MAX,
    ensures
        r matches Some(e) ==> closing(c@, start as int, m@) == Some(e as int),
        r is None ==> closing(c@, start as int, m@) is None,
        r matches Some(e) ==> start + m@.len() <= e <= c@.len(),
{
    let cl = c.len();
    match find_from_exec(c, start, m) {
        Some(p) => {
            proof {
                lemma_find_from_at_least(c@, start as int, m@);
            }
            Some(p + m.len())
        },
        None => None,
    }
}

proof fn lemma_find_from_at_least(c: Seq<char>, i: int, p: Seq<char>)
    ensures
        find_from(c, i, p) matches Some(k) ==> i <= k,
    decreases c.len() + 1 - i,
{
    if i >= 0 && i + p.len() <= c.len() && c.subrange(i, i + p.len()) != p {
        lemma_find_from_at_least(c, i + 1, p);
    }
}

fn scan_nested_exec(c: &Vec<char>, start: usize, open: char, close: char) -> (r: (usize, usize))
    requires
        start <= c@.len(),
        c@.len() + 2 <= usize::MAX,
    ensures
        (r.0 as int, r.1 as int) == scan_nested(c@, start as int, 1, open, close),
        start <= r.0 <= c@.len() + 1,
{
    let mut pos = start;
    let mut depth: usize = 1;
    while pos < c.len() && depth > 0
        invariant
            start <= pos <= c@.len() + 1,
            c@.len() + 2 <= usize::MAX,
            depth <= pos - start + 1,
            scan_nested(c@, pos as int, depth as int, open, close) == scan_nested(
                c@,
                start as int,
                1,
                open,
                close,
            ),
        decreases c@.len() + 1 - pos,
    {
        if c[pos] == open {
            depth = depth + 1;
            pos = pos + 1;
        } else if c[pos] == close {
            depth = depth - 1;
            pos = pos + 1;
        } else if c[pos] == '\\' {
            pos = pos + 2;
        } else {
            pos = pos + 1;
        }
    }
    (pos, depth)
}

fn link_exec(c: &Vec<char>, start: usize) -> (r: Option<(usize, usize)>)
    requires
        c@.len() + 2 <= usize::MAX,
    ensures
        r is Some == link(c@, start as int) is Some,
        r matches Some(x) ==> link(c@, start as int) == Some((x.0 as int, x.1 as int)),
        r matches Some(x) ==> start < x.0 < x.1 <= c@.len() + 1,
{
    if start >= c.len() || c[start] != '[' {
        return None;
    }
    let (text_end, d) = scan_nested_exec(c, start + 1, '[', ']');
    if d != 0 || text_end >= c.len() || c[text_end] != '(' {
        return None;
    }
    let (end, d2) = scan_nested_exec(c, text_end + 1, '(', ')');
    if d2 != 0 {
        return None;
    }
    Some((text_end, end))
}

fn footnote_exec(c: &Vec<char>, start: usize) -> (r: Option<usize>)
    requires
        c@.len() + 2 <= usize::MAX,
    ensures
        r matches Some(e) ==> footnote(c@, start as int) == Some(e as int),
        r is None ==> footnote(c@, start as int) is None,
        r matches Some(e) ==> start < e <= c@.len(),
{
    if start >= c.len() || c.len() - start <= 2 || c[start] != '[' || c[start + 1] != '^' {
        return None;
    }
    let mut p = start + 2;
    while p < c.len()
        invariant
            start + 2 <= p <= c@.len(),
            footnote_from(c@, p as int) == footnote(c@, start as int),
        decreases c@.len() - p,
    {
        if c[p] == ']' {
            return Some(p + 1);
        }
        if !char_is_alphanumeric(c[p]) && c[p] != '-' && c[p] != '_' {
            return None;
        }
        p = p + 1;
    }
    None
}

fn autolink_exec(c: &Vec<char>, start: usize) -> (r: Option<usize>)
    requires
        start <= c@.len(),
        c@.len() + 8 <= usize::MAX,
    ensures
        r matches Some(e) ==> autolink(c@, start as int) == Some(e as int),
        r is None ==> autolink(c@, start as int) is None,
        r matches Some(e) ==> start < e <= c@.len(),
{
    let mut p = start;
    while p < c.len() && !(char_is_whitespace(c[p]) || c[p] == '<' || c[p] == '>' || c[p] == '"'
        || c[p] == '\'')
        invariant
            start <= p <= c@.len(),
            url_stop_from(c@, p as int) == url_stop_from(c@, start as int),
        decreases c@.len() - p,
    {
        p = p + 1;
    }
    let ghost stop = p as int;
    while p > start && (c[p - 1] == '.' || c[p - 1] == ',' || c[p - 1] == ':' || c[p - 1] == ';'
        || c[p - 1] == '!' || c[p - 1] == '?' || c[p - 1] == ')')
        invariant
            start <= p <= c@.len(),
            drop_trailers(c@, start as int, p as int) == drop_trailers(c@, start as int, stop),
        decreases p,
    {
        p = p - 1;
    }
    if p > start + 7 {
        Some(p)
    } else {
        None
    }
}

/// The patterns the inline scan looks for.
struct InlinePatterns {
    triple_star: Vec<char>,
    double_star: Vec<char>,
    double_under: Vec<char>,
    double_tilde: Vec<char>,
    star: Vec<char>,
    under: Vec<char>,
    http: Vec<char>,
    https: Vec<char>,
}

impl InlinePatterns {
    spec fn ok(&self) -> bool {
        &&& self.triple_star@ == "***"@
        &&& self.double_star@ == "**"@
        &&& self.double_under@ == "__"@
        &&& self.double_tilde@ == "~~"@
        &&& self.star@ == "*"@
        &&& self.under@ == "_"@
        &&& self.http@ == "http://"@
        &&& self.https@ == "https://"@
    }

    fn new() -> (r: Self)
        ensures
            r.ok(),
    {
        InlinePatterns {
            triple_star: chars_of("***"),
            double_star: chars_of("**"),
            double_under: chars_of("__"),
            double_tilde: chars_of("~~"),
            star: chars_of("*"),
            under: chars_of("_"),
            http: chars_of("http://"),
            https: chars_of("https://"),
        }
    }
}

/// One token of a kind, shifted by `offset`.
fn one(kind: TokenType, a: usize, b: usize, offset: usize) -> (r: Vec<Token>)
    requires
        offset + b <= usize::MAX,
        a <= b,
    ensures
        r@ == placed_tokens(seq![(kind, a as int, b as int)], offset as int),
{
    let mut r: Vec<Token> = Vec::new();
    r.push(Token::new(kind, offset + a, offset + b));
    assert(r@ =~= placed_tokens(seq![(kind, a as int, b as int)], offset as int));
    r
}

/// Two tokens, shifted by `offset`.
fn two(k1: TokenType, a: usize, b: usize, k2: TokenType, d: usize, offset: usize) -> (r: Vec<Token>)
    requires
        offset + d <= usize::MAX,
        a <= b <= d,
    ensures
        r@ == placed_tokens(seq![(k1, a as int, b as int), (k2, b as int, d as int)], offset as int),
{
    let mut r: Vec<Token> = Vec::new();
    r.push(Token::new(k1, offset + a, offset + b));
    r.push(Token::new(k2, offset + b, offset + d));
    assert(r@ =~= placed_tokens(seq![(k1, a as int, b as int), (k2, b as int, d as int)], offset as int));
    r
}

/// What the inline scan does at `pos`.
#[verifier::rlimit(50)]
fn inline_step_exec(c: &Vec<char>, pos: usize, offset: usize, pats: &InlinePatterns) -> (r: (Vec<Token>, usize))
    requires
        pos < c@.len(),
        offset + c@.len() + 8 <= usize::MAX,
        pats.ok(),
    ensures
        r.0@ == placed_tokens(inline_step(c@, pos as int).0, offset as int),
        r.1 == inline_step(c@, pos as int).1,
        pos < r.1 <= c@.len() + 1,
{
    let n = c.len();
    let x = c[pos];
    if x == '\\' && pos + 1 < n {
        return (one(TokenType::Escape, pos, pos + 2, offset), pos + 2);
    }
    if x == '`' {
        if let Some(e) = inline_code_exec(c, pos) {
            return (one(TokenType::InlineCode, pos, e, offset), e);
        }
    }
    if holds_at_exec(c, pos, &pats.triple_star) {
        if let Some(e) = closing_exec(c, pos + 3, &pats.triple_star) {
            return (one(TokenType::BoldItalic, pos, e, offset), e);
        }
    }
    if holds_at_exec(c, pos, &pats.double_star) {
        if let Some(e) = closing_exec(c, pos + 2, &pats.double_star) {
            return (one(TokenType::Bold, pos, e, offset), e);
        }
    }
    if holds_at_exec(c, pos, &pats.double_under) {
        if let Some(e) = closing_exec(c, pos + 2, &pats.double_under) {
            return (one(TokenType::Bold, pos, e, offset), e);
        }
    }
    if holds_at_exec(c, pos, &pats.double_tilde) {
        if let Some(e) = closing_exec(c, pos + 2, &pats.double_tilde) {
            return (one(TokenType::Strikethrough, pos, e, offset), e);
        }
    }
    if x == '*' {
        if let Some(e) = closing_exec(c, pos + 1, &pats.star) {
            return (one(TokenType::Italic, pos, e, offset), e);
        }
    }
    if x == '_' {
        if let Some(e) = closing_exec(c, pos + 1, &pats.under) {
            return (one(TokenType::Italic, pos, e, offset), e);
        }
    }
    if x == '!' && pos + 1 < n && c[pos + 1] == '[' {
        if let Some((a, u)) = link_exec(c, pos + 1) {
            return (two(TokenType::ImageAlt, pos, a, TokenType::ImageUrl, u, offset), u);
        }
    }
    if x == '[' {
        if let Some((a, u)) = link_exec(c, pos) {
            return (two(TokenType::LinkText, pos, a, TokenType::LinkUrl, u, offset), u);
        }
    }
    if x == '[' && pos + 1 < n && c[pos + 1] == '^' {
        if let Some(e) = footnote_exec(c, pos) {
            return (one(TokenType::FootnoteReference, pos, e, offset), e);
        }
    }
    if holds_at_exec(c, pos, &pats.http) || holds_at_exec(c, pos, &pats.https) {
        if let Some(e) = autolink_exec(c, pos) {
            return (one(TokenType::Autolink, pos, e, offset), e);
        }
    }
    let r: Vec<Token> = Vec::new();
    assert(r@ =~= placed_tokens(Seq::empty(), offset as int));
    (r, pos + 1)
}

/// The inline tokens of `c`, shifted by `offset`.
fn tokenize_inline(c: &Vec<char>, offset: usize) -> (r: Vec<Token>)
    requires
        offset + c@.len() + 8 <= usize::MAX,
    ensures
        r@ == inline_from(c@, 0, offset as int),
{
    let pats = InlinePatterns::new();
    let n = c.len();
    let mut tokens: Vec<Token> = Vec::new();
    let mut pos: usize = 0;
    assert(tokens@ + inline_from(c@, 0, offset as int) =~= inline_from(c@, 0, offset as int));
    while pos < n
        invariant
            n == c@.len(),
            offset + n + 8 <= usize::MAX,
            pats.ok(),
            pos <= n + 1,
            tokens@ + inline_from(c@, pos as int, offset as int) == inline_from(
                c@,
                0,
                offset as int,
            ),
        decreases n + 1 - pos,
    {
        let ghost before = tokens@;
        let (mut step, next) = inline_step_exec(c, pos, offset, &pats);
        proof {
            assert(before + inline_from(c@, pos as int, offset as int) == before + (step@ + inline_from(c@, next as int, offset as int)));
            assert(before + (step@ + inline_from(c@, next as int, offset as int)) =~= (before + step@) + inline_from(c@, next as int, offset as int));
        }
        tokens.append(&mut step);
        pos = next;
    }
    proof {
        assert(inline_from(c@, pos as int, offset as int) =~= Seq::<Token>::empty());
        assert(tokens@ + Seq::<Token>::empty() =~= tokens@);
    }
    tokens
}


/// `k` copies of `ch`.
fn repeat_char(ch: char, k: usize) -> (r: Vec<char>)
    ensures
        r@ == Seq::new(k as nat, |i: int| ch),
{
    let mut r: Vec<char> = Vec::new();
    let mut i: usize = 0;
    while i < k
        invariant
            i <= k,
            r@ == Seq::new(i as nat, |j: int| ch),
        decreases k - i,
    {
        r.push(ch);
        assert(r@ =~= Seq::new((i + 1) as nat, |j: int| ch));
        i = i + 1;
    }
    r
}

/// Whether two character sequences are equal.
fn same_chars(a: &Vec<char>, b: &Vec<char>) -> (r: bool)
    ensures
        r == (a@ == b@),
{
    if a.len() != b.len() {
        return false;
    }
    let r = holds_at_exec(a, 0, b);
    proof {
        if r {
            assert(a@.subrange(0, b@.len() as int) =~= a@);
        } else if a@ == b@ {
            assert(a@.subrange(0, b@.len() as int) =~= a@);
        }
    }
    r
}

fn heading_type_exec(level: usize) -> (r: TokenType)
    ensures
        r == heading_type(level as int),
{
    if level == 1 {
        TokenType::Heading1
    } else if level == 2 {
        TokenType::Heading2
    } else if level == 3 {
        TokenType::Heading3
    } else if level == 4 {
        TokenType::Heading4
    } else if level == 5 {
        TokenType::Heading5
    } else {
        TokenType::Heading6
    }
}

/// A marker token followed by the inline tokens of `t` from `from` on,
/// shifted by `lead + from`.
fn marker_then_inline(kind: TokenType, a: usize, b: usize, t: &Vec<char>, from: usize, lead: usize) -> (r: Vec<Token>)
    requires
        a <= b,
        from <= t@.len(),
        lead + t@.len() + 8 <= usize::MAX,
        b <= lead + t@.len(),
    ensures
        r@ == seq![tok(kind, a as int, b as int)] + inline_from(
            t@.subrange(from as int, t@.len() as int),
            0,
            lead + from,
        ),
{
    let mut r: Vec<Token> = Vec::new();
    r.push(Token::new(kind, a, b));
    let rest = slice_chars(t, from, t.len());
    let mut inline = tokenize_inline(&rest, lead + from);
    r.append(&mut inline);
    r
}

/// Tokens of a line and the state after it, given the state before.
pub fn tokenize_line_content(line: &str, state: LineState) -> (r: (Vec<Token>, LineState))
    requires
        line@.len() + 8 <= usize::MAX,
    ensures
        (r.0@, r.1) == line_tokens(line@, state),
{
    let c = chars_of(line);
    let n = c.len();
    let lead = ws_end_exec(&c, 0);
    let t = slice_chars(&c, lead, n);
    assert(t@ == trim_start(c@));
    match state {
        LineState::InCodeBlock { fence_char, fence_count } => {
            let fence = repeat_char(fence_char, fence_count);
            let tt = trim_exec(&t);
            let tf = trim_exec(&fence);
            let starts = holds_at_exec(&t, 0, &fence);
            assert(starts == starts_with(t@, fence@));
            if starts && same_chars(&tt, &tf) {
                (one(TokenType::CodeBlockDelimiter, 0, n, 0), LineState::Normal)
            } else {
                (one(TokenType::CodeBlockContent, 0, n, 0), state)
            }
        },
        LineState::InFrontmatter => {
            let dashes = chars_of("---");
            if same_chars(&t, &dashes) {
                (one(TokenType::Frontmatter, 0, n, 0), LineState::Normal)
            } else {
                (one(TokenType::Frontmatter, 0, n, 0), state)
            }
        },
        LineState::Normal => {
            let dashes = chars_of("---");
            if same_chars(&c, &dashes) {
                return (one(TokenType::Frontmatter, 0, n, 0), LineState::InFrontmatter);
            }
            if let Some((ch, count, lang)) = code_fence_exec(&t) {
                let mut tokens = one(TokenType::CodeBlockDelimiter, 0, lead + 3, 0);
                if lang.len() > 0 {
                    let ls = match find_from_exec(&c, 0, &lang) {
                        Some(i) => i,
                        None => lead + 3,
                    };
                    proof {
                        assert(lang@ == trim(t@.subrange(count as int, t@.len() as int)));
                    }
                    tokens.push(Token::new(TokenType::CodeBlockLanguage, ls, ls + lang.len()));
                }
                return (tokens, LineState::InCodeBlock { fence_char: ch, fence_count: count });
            }
            if let Some((level, cs)) = heading_exec(&t) {
                let kind = heading_type_exec(level);
                return (marker_then_inline(kind, 0, n, &t, cs, lead), LineState::Normal);
            }
            if horizontal_rule_exec(&t) {
                return (one(TokenType::HorizontalRule, 0, n, 0), LineState::Normal);
            }
            if t.len() > 0 && t[0] == '>' {
                let cs: usize = if t.len() > 1 && t[1] == ' ' {
                    2
                } else {
                    1
                };
                return (
                    marker_then_inline(TokenType::Blockquote, lead, lead + 1, &t, cs, lead),
                    LineState::Normal,
                );
            }
            if let Some((me, task, checked)) = unordered_exec(&t) {
                let kind = if !task {
                    TokenType::UnorderedListMarker
                } else if checked {
                    TokenType::TaskListChecked
                } else {
                    TokenType::TaskListUnchecked
                };
                return (marker_then_inline(kind, lead, lead + me, &t, me, lead), LineState::Normal);
            }
            if let Some(me) = ordered_exec(&t) {
                return (
                    marker_then_inline(TokenType::OrderedListMarker, lead, lead + me, &t, me, lead),
                    LineState::Normal,
                );
            }
            let mut pipe: Vec<char> = Vec::new();
            pipe.push('|');
            assert(pipe@ =~= seq!['|']);
            if find_from_exec(&t, 0, &pipe).is_some() && table_row_exec(&t) {
                return (one(TokenType::TableDelimiter, 0, n, 0), LineState::Normal);
            }
            let inline = tokenize_inline(&c, 0);
            if inline.len() == 0 && n > 0 {
                (one(TokenType::PlainText, 0, n, 0), LineState::Normal)
            } else {
                (inline, LineState::Normal)
            }
        },
    }
}


/// No token carries a nested style.
pub open spec fn plain_tokens(t: Seq<Token>) -> bool {
    forall|i: int| 0 <= i < t.len() ==> (#[trigger] t[i]).nested_style is None
}

proof fn lemma_inline_plain(c: Seq<char>, pos: int, offset: int)
    ensures
        plain_tokens(inline_from(c, pos, offset)),
    decreases c.len() + 2 - pos,
{
    if 0 <= pos < c.len() {
        let (t, next) = inline_step(c, pos);
        if pos < next <= c.len() + 1 {
            lemma_inline_plain(c, next, offset);
            let a = placed_tokens(t, offset);
            let b = inline_from(c, next, offset);
            assert forall|i: int| 0 <= i < (a + b).len() implies (#[trigger] (a + b)[i]).nested_style is None by {
                if i < a.len() {
                    assert((a + b)[i] == a[i]);
                } else {
                    assert((a + b)[i] == b[i - a.len()]);
                }
            }
        }
    }
}

/// Tokens that the line tokenizer makes carry no nested style.
proof fn lemma_line_plain(line: Seq<char>, state: LineState)
    ensures
        plain_tokens(line_tokens(line, state).0),
{
    let lead = ws_end(line, 0);
    let t = trim_start(line);
    lemma_inline_plain(line, 0, 0);
    if let Some((level, cs)) = heading(t) {
        lemma_inline_plain(t.subrange(cs, t.len() as int), 0, lead + cs);
    }
    if t.len() > 0 {
        lemma_inline_plain(t.subrange(1, t.len() as int), 0, lead + 1);
        if t.len() > 1 {
            lemma_inline_plain(t.subrange(2, t.len() as int), 0, lead + 2);
        }
    }
    if let Some((me, task, checked)) = unordered_item(t) {
        lemma_inline_plain(t.subrange(me, t.len() as int), 0, lead + me);
    }
    if let Some(me) = ordered_item(t) {
        lemma_inline_plain(t.subrange(me, t.len() as int), 0, lead + me);
    }
    let r = line_tokens(line, state).0;
    assert forall|i: int| 0 <= i < r.len() implies (#[trigger] r[i]).nested_style is None by {
        let first = r[0];
        if i > 0 {
            assert(r[i] == r.subrange(1, r.len() as int)[i - 1]);
        }
    }
}

/// A copy of a token without nested style.
fn copy_token(t: &Token) -> (r: Token)
    requires
        t.nested_style is None,
    ensures
        r == *t,
{
    Token::new(t.token_type, t.start, t.end)
}

/// A copy of tokens without nested styles.
fn copy_tokens(t: &Vec<Token>) -> (r: Vec<Token>)
    requires
        plain_tokens(t@),
    ensures
        r@ == t@,
{
    let mut r: Vec<Token> = Vec::new();
    let mut i: usize = 0;
    while i < t.len()
        invariant
            i <= t@.len(),
            plain_tokens(t@),
            r@ == t@.subrange(0, i as int),
        decreases t@.len() - i,
    {
        r.push(copy_token(&t[i]));
        assert(r@ =~= t@.subrange(0, i + 1));
        i = i + 1;
    }
    assert(r@ =~= t@);
    r
}

/// Cached tokens for a single line
#[derive(Debug)]
pub struct LineTokens {
    /// The tokens for this line
    pub tokens: Vec<Token>,
    /// State at the end of this line (for continuation)
    pub end_state: LineState,
    /// Hash of the line content for cache invalidation
    pub content_hash: u64,
}

impl LineTokens {
    /// The hash of the content the tokens were made from.
    pub open spec fn hash(&self) -> u64 {
        self.content_hash
    }

    pub fn new(tokens: Vec<Token>, end_state: LineState, content_hash: u64) -> (r: Self)
        ensures
            r.tokens == tokens,
            r.end_state == end_state,
            r.hash() == content_hash,
    {
        LineTokens { tokens, end_state, content_hash }
    }

    /// A copy with the same tokens, state and hash.
    fn copy(&self) -> (r: Self)
        requires
            plain_tokens(self.tokens@),
        ensures
            r.tokens@ == self.tokens@,
            r.end_state == self.end_state,
            r.hash() == self.hash(),
    {
        LineTokens {
            tokens: copy_tokens(&self.tokens),
            end_state: self.end_state,
            content_hash: self.content_hash,
        }
    }
}

/// Index of the cached entry of line `k`, or -1.
pub open spec fn cache_index(s: Seq<(usize, LineTokens)>, k: usize) -> int
    decreases s.len(),
{
    if s.len() == 0 {
        -1
    } else if s.last().0 == k {
        s.len() - 1
    } else {
        cache_index(s.drop_last(), k)
    }
}

proof fn lemma_cache_index_range(s: Seq<(usize, LineTokens)>, k: usize)
    ensures
        -1 <= cache_index(s, k) < s.len(),
        cache_index(s, k) >= 0 ==> s[cache_index(s, k)].0 == k,
    decreases s.len(),
{
    if s.len() > 0 {
        lemma_cache_index_range(s.drop_last(), k);
    }
}

/// Replacing the entry of line `k` keeps every line's index.
proof fn lemma_cache_index_set(s: Seq<(usize, LineTokens)>, i: int, k: usize, v: LineTokens)
    requires
        0 <= i < s.len(),
        cache_index(s, k) == i,
    ensures
        forall|m: usize| cache_index(s.update(i, (k, v)), m) == cache_index(s, m),
    decreases s.len(),
{
    let u = s.update(i, (k, v));
    lemma_cache_index_range(s.drop_last(), k);
    if i == s.len() - 1 {
        assert(u.drop_last() =~= s.drop_last());
        assert(s.last().0 == k);
        assert forall|m: usize| cache_index(u, m) == cache_index(s, m) by {}
    } else {
        assert(u.drop_last() =~= s.drop_last().update(i, (k, v)));
        assert(s.last().0 != k);
        lemma_cache_index_set(s.drop_last(), i, k, v);
        assert forall|m: usize| cache_index(u, m) == cache_index(s, m) by {
            assert(u.last() == s.last());
            if s.last().0 != m {
                assert(cache_index(u, m) == cache_index(u.drop_last(), m));
                assert(cache_index(u.drop_last(), m) == cache_index(s.drop_last().update(i, (k, v)), m));
                assert(cache_index(s, m) == cache_index(s.drop_last(), m));
            }
        }
    }
}

/// The tokens and end states of consecutive lines, each line starting in
/// the state the previous one ended in (the first in `Normal`).
pub open spec fn document_tokens(lines: Seq<Seq<char>>) -> Seq<(Seq<Token>, LineState)>
    decreases lines.len(),
{
    if lines.len() == 0 {
        Seq::empty()
    } else {
        let prev = document_tokens(lines.drop_last());
        let state = if prev.len() == 0 { LineState::Normal } else { prev.last().1 };
        prev.push(line_tokens(lines.last(), state))
    }
}

proof fn lemma_document_len(lines: Seq<Seq<char>>)
    ensures
        document_tokens(lines).len() == lines.len(),
    decreases lines.len(),
{
    if lines.len() > 0 {
        lemma_document_len(lines.drop_last());
    }
}

/// The main syntax tokenizer for Markdown, with a cache of tokenized lines
pub struct MarkdownTokenizer {
    line_cache: Vec<(usize, LineTokens)>,
}

impl MarkdownTokenizer {
    /// The cached lines: line number and tokens.
    pub closed spec fn cache(&self) -> Seq<(usize, LineTokens)> {
        self.line_cache@
    }

    /// The cache holds only tokens that the line tokenizer makes.
    pub closed spec fn wf(&self) -> bool {
        forall|i: int| 0 <= i < self.line_cache@.len() ==> plain_tokens(
            (#[trigger] self.line_cache@[i]).1.tokens@,
        )
    }

    pub fn new() -> (r: Self)
        ensures
            r.cache().len() == 0,
            r.wf(),
    {
        MarkdownTokenizer { line_cache: Vec::new() }
    }

    /// Clear the cache
    pub fn clear_cache(&mut self)
        ensures
            final(self).cache().len() == 0,
            final(self).wf(),
    {
        self.line_cache.clear();
    }

    /// Invalidate cache for a specific line and all following lines
    pub fn invalidate_from_line(&mut self, line_num: usize)
        requires
            old(self).wf(),
        ensures
            final(self).wf(),
            forall|i: int| 0 <= i < final(self).cache().len() ==> (#[trigger] final(self).cache()[i]).0 < line_num,
            forall|i: int| 0 <= i < old(self).cache().len() && (#[trigger] old(self).cache()[i]).0 < line_num
                ==> final(self).cache().contains(old(self).cache()[i]),
    {
        let mut kept: Vec<(usize, LineTokens)> = Vec::new();
        let ghost s = self.line_cache@;
        let n = self.line_cache.len();
        let mut k: usize = 0;
        while self.line_cache.len() > 0
            invariant
                k + self.line_cache@.len() == s.len(),
                s.len() == n,
                s == old(self).line_cache@,
                self.line_cache@ == s.subrange(k as int, s.len() as int),
                forall|i: int| 0 <= i < s.len() ==> plain_tokens((#[trigger] s[i]).1.tokens@),
                forall|i: int| 0 <= i < kept@.len() ==> (#[trigger] kept@[i]).0 < line_num,
                forall|i: int| 0 <= i < kept@.len() ==> plain_tokens((#[trigger] kept@[i]).1.tokens@),
                forall|i: int| 0 <= i < k && (#[trigger] s[i]).0 < line_num ==> kept@.contains(s[i]),
            decreases self.line_cache@.len(),
        {
            let entry = self.line_cache.remove(0);
            assert(entry == s[k as int]);
            if entry.0 < line_num {
                let ghost before = kept@;
                kept.push(entry);
                proof {
                    assert forall|i: int| 0 <= i < k + 1 && (#[trigger] s[i]).0 < line_num implies kept@.contains(s[i]) by {
                        if i < k {
                            let j = choose|j: int| 0 <= j < before.len() && before[j] == s[i];
                            assert(kept@[j] == s[i]);
                        } else {
                            assert(kept@[before.len() as int] == s[i]);
                        }
                    }
                }
            }
            k = k + 1;
        }
        self.line_cache = kept;
    }

    /// Position of the cached entry of line `k`.
    fn position(&self, k: usize) -> (r: Option<usize>)
        ensures
            r matches Some(i) ==> i == cache_index(self.cache(), k) && i < self.cache().len(),
            r is None ==> cache_index(self.cache(), k) == -1,
    {
        let ghost s = self.line_cache@;
        let mut i: usize = self.line_cache.len();
        assert(s.subrange(0, s.len() as int) =~= s);
        while i > 0
            invariant
                i <= s.len(),
                s == self.line_cache@,
                cache_index(s, k) == cache_index(s.subrange(0, i as int), k),
            decreases i,
        {
            assert(s.subrange(0, i as int).drop_last() =~= s.subrange(0, i - 1));
            if self.line_cache[i - 1].0 == k {
                return Some(i - 1);
            }
            i = i - 1;
        }
        None
    }

    /// Get the starting state for a line: the end state of the cached
    /// previous line, else `Normal`
    pub fn get_start_state(&self, line_num: usize) -> (r: LineState)
        ensures
            line_num == 0 ==> r == LineState::Normal,
            line_num > 0 && cache_index(self.cache(), (line_num - 1) as usize) >= 0 ==> r
                == self.cache()[cache_index(self.cache(), (line_num - 1) as usize)].1.end_state,
            line_num > 0 && cache_index(self.cache(), (line_num - 1) as usize) == -1 ==> r
                == LineState::Normal,
    {
        if line_num == 0 {
            return LineState::Normal;
        }
        match self.position(line_num - 1) {
            Some(i) => self.line_cache[i].1.end_state,
            None => LineState::Normal,
        }
    }

    /// Tokenize a single line: the cached tokens of that line when its
    /// content hash is unchanged, else fresh tokens, which then replace the
    /// cached ones
    pub fn tokenize_line(&mut self, line_num: usize, content: &str, start_state: LineState) -> (r: &LineTokens)
        requires
            old(self).wf(),
            content@.len() + 8 <= usize::MAX,
        ensures
            final(self).wf(),
            plain_tokens(r.tokens@),
            ({
                let i = cache_index(old(self).cache(), line_num);
                let h = content_hash_of(content@);
                if i >= 0 && old(self).cache()[i].1.hash() == h {
                    *r == old(self).cache()[i].1 && final(self).cache() == old(self).cache()
                } else {
                    &&& (r.tokens@, r.end_state) == line_tokens(content@, start_state)
                    &&& r.hash() == h
                    &&& cache_index(final(self).cache(), line_num) >= 0
                    &&& final(self).cache()[cache_index(final(self).cache(), line_num)].1 == *r
                }
            }),
            forall|k: usize| k != line_num ==> cache_index(final(self).cache(), k) == cache_index(
                old(self).cache(),
                k,
            ),
    {
        let content_hash = simple_hash(content);
        let pos = self.position(line_num);
        if let Some(i) = pos {
            if self.line_cache[i].1.content_hash == content_hash {
                assert(plain_tokens(self.line_cache@[i as int].1.tokens@));
                return &self.line_cache[i].1;
            }
        }
        let (tokens, end_state) = tokenize_line_content(content, start_state);
        proof {
            lemma_line_plain(content@, start_state);
        }
        let line_tokens = LineTokens::new(tokens, end_state, content_hash);
        let ghost s = self.line_cache@;
        let idx = match pos {
            Some(i) => {
                self.line_cache.set(i, (line_num, line_tokens));
                proof {
                    lemma_cache_index_range(s, line_num);
                    lemma_cache_index_set(s, i as int, line_num, self.line_cache@[i as int].1);
                    assert(self.line_cache@ == s.update(i as int, (line_num, self.line_cache@[i as int].1)));
                }
                i
            },
            None => {
                self.line_cache.push((line_num, line_tokens));
                proof {
                    assert(self.line_cache@.drop_last() =~= s);
                    assert forall|k: usize| k != line_num implies cache_index(self.line_cache@, k) == cache_index(s, k) by {
                        assert(self.line_cache@.last().0 == line_num);
                    }
                }
                self.line_cache.len() - 1
            },
        };
        &self.line_cache[idx].1
    }

    /// Tokenize all lines in a document, each starting in the state the
    /// previous one ended in
    pub fn tokenize_document(&mut self, lines: &[&str]) -> (r: Vec<LineTokens>)
        requires
            old(self).wf(),
            forall|i: int| 0 <= i < lines@.len() ==> (#[trigger] lines@[i])@.len() + 8 <= usize::MAX,
        ensures
            final(self).wf(),
            r@.len() == lines@.len(),
            (forall|k: usize| k < lines@.len() ==> cache_index(old(self).cache(), k) == -1) ==> forall|i: int|
                0 <= i < lines@.len() ==> (#[trigger] r@[i]).tokens@ == document_tokens(
                    lines@.map_values(|l: &str| l@),
                )[i].0 && r@[i].end_state == document_tokens(lines@.map_values(|l: &str| l@))[i].1,
    {
        let ghost texts = lines@.map_values(|l: &str| l@);
        let ghost fresh = forall|k: usize| k < lines@.len() ==> cache_index(old(self).cache(), k) == -1;
        let mut result: Vec<LineTokens> = Vec::new();
        let mut state = LineState::Normal;
        let mut i: usize = 0;
        while i < lines.len()
            invariant
                self.wf(),
                i <= lines@.len(),
                result@.len() == i,
                texts == lines@.map_values(|l: &str| l@),
                forall|j: int| 0 <= j < lines@.len() ==> (#[trigger] lines@[j])@.len() + 8 <= usize::MAX,
                fresh ==> forall|k: usize| i <= k < lines@.len() ==> cache_index(self.cache(), k) == -1,
                fresh ==> forall|j: int| 0 <= j < i ==> (#[trigger] result@[j]).tokens@ == document_tokens(
                    texts.subrange(0, i as int),
                )[j].0 && result@[j].end_state == document_tokens(texts.subrange(0, i as int))[j].1,
                fresh && i > 0 ==> state == document_tokens(texts.subrange(0, i as int)).last().1,
                fresh && i == 0 ==> state == LineState::Normal,
            decreases lines@.len() - i,
        {
            let ghost before = self.cache();
            let line = lines[i];
            let lt = self.tokenize_line(i, line, state);
            let copy = lt.copy();
            state = copy.end_state;
            result.push(copy);
            proof {
                lemma_document_len(texts.subrange(0, i as int));
                assert(texts.subrange(0, i + 1).drop_last() =~= texts.subrange(0, i as int));
                assert(lines@[i as int]@ == texts[i as int]);
            }
            i = i + 1;
        }
        proof {
            assert(texts.subrange(0, lines@.len() as int) =~= texts);
        }
        result
    }
}

impl Default for MarkdownTokenizer {
    fn default() -> (r: Self)
        ensures
            r.cache().len() == 0,
            r.wf(),
    {
        MarkdownTokenizer::new()
    }
}

} // verus!
