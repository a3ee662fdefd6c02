//! Cursor movement over a text buffer: pure functions from a buffer and a
//! position to a new position (and, for vertical moves, a preferred column).

use vstd::prelude::*;
use crate::editor::buffer::{
    char_is_whitespace, count_nl, line_end,
    line_length, line_start, next_boundary, offset_of, position_of, prev_boundary, whitespace,
    TextBuffer,
};
use crate::state::editor_state::CursorPosition;

verus! {

/// Length of line `k` without its newline, or 0 for a line past the last.
pub open spec fn len_or_zero(s: Seq<char>, k: int) -> int {
    if 0 <= k <= count_nl(s) {
        line_length(s, k as nat)
    } else {
        0
    }
}

/// The smaller of two integers.
pub open spec fn min_int(a: int, b: int) -> int {
    if a <= b {
        a
    } else {
        b
    }
}

/// Index of the first non-whitespace character of `t` at or after `j`, or
/// the length of `t` when there is none.
pub open spec fn scan_non_ws(t: Seq<char>, j: int) -> int
    decreases t.len() - j,
{
    if j < 0 || j >= t.len() {
        t.len() as int
    } else if !whitespace(t[j]) {
        j
    } else {
        scan_non_ws(t, j + 1)
    }
}

/// Column of the first non-whitespace character of a line's text, or 0
/// when the line is all whitespace.
pub open spec fn first_non_ws(t: Seq<char>) -> int {
    if scan_non_ws(t, 0) == t.len() {
        0
    } else {
        scan_non_ws(t, 0)
    }
}

/// The text of line `k` without its newline (empty past the last line).
pub open spec fn line_text(s: Seq<char>, k: int) -> Seq<char> {
    if 0 <= k <= count_nl(s) {
        s.subrange(line_start(s, k as nat), line_end(s, k as nat))
    } else {
        Seq::empty()
    }
}

/// Where smart home goes from `pos`: from column 0 of a line with leading
/// whitespace to its first non-whitespace column, otherwise to column 0.
pub open spec fn home_target(s: Seq<char>, pos: CursorPosition) -> int {
    let f = first_non_ws(line_text(s, pos.line as int));
    if pos.column == 0 && f > 0 {
        f
    } else {
        0
    }
}

/// Result of a vertical move to `line` with target column `target`.
pub open spec fn vertical_result(
    s: Seq<char>,
    line: int,
    target: int,
) -> (CursorPosition, Option<usize>) {
    (
        CursorPosition {
            line: line as usize,
            column: min_int(target, len_or_zero(s, line)) as usize,
        },
        Some(target as usize),
    )
}

/// The column a vertical move aims at: the preferred one if set.
pub open spec fn target_column(pos: CursorPosition, preferred: Option<usize>) -> int {
    match preferred {
        Some(c) => c as int,
        None => pos.column as int,
    }
}

/// Position of the scroll window's first line that keeps the cursor visible.
pub open spec fn scroll_target(cursor: int, current: int, viewport: int, margin_setting: int) -> int {
    let margin = min_int(margin_setting, viewport / 2);
    if cursor < current + margin {
        if cursor >= margin {
            cursor - margin
        } else {
            0
        }
    } else if cursor >= current + viewport - margin {
        min_int(cursor - viewport + margin + 1, usize::MAX as int)
    } else {
        current
    }
}

/// Where `CursorController::move_left` goes.
pub open spec fn left_of(s: Seq<char>, pos: CursorPosition) -> CursorPosition {
    if pos.column > 0 {
        CursorPosition { line: pos.line, column: (pos.column - 1) as usize }
    } else if pos.line > 0 {
        CursorPosition {
            line: (pos.line - 1) as usize,
            column: len_or_zero(s, pos.line - 1) as usize,
        }
    } else {
        pos
    }
}

/// Where `CursorController::move_right` goes.
pub open spec fn right_of(s: Seq<char>, pos: CursorPosition) -> CursorPosition {
    if pos.column < len_or_zero(s, pos.line as int) {
        CursorPosition { line: pos.line, column: (pos.column + 1) as usize }
    } else if pos.line < count_nl(s) {
        CursorPosition { line: (pos.line + 1) as usize, column: 0 }
    } else {
        pos
    }
}

/// Where `CursorController::move_up` goes.
pub open spec fn up_of(s: Seq<char>, pos: CursorPosition, preferred_col: Option<usize>) -> (CursorPosition, Option<usize>) {
    if pos.line == 0 {
        (pos, preferred_col)
    } else {
        vertical_result(
            s,
            pos.line - 1,
            target_column(pos, preferred_col),
        )
    }
}

/// Where `CursorController::move_down` goes.
pub open spec fn down_of(s: Seq<char>, pos: CursorPosition, preferred_col: Option<usize>) -> (CursorPosition, Option<usize>) {
    if pos.line >= count_nl(s) {
        (pos, preferred_col)
    } else {
        vertical_result(
            s,
            pos.line + 1,
            target_column(pos, preferred_col),
        )
    }
}

/// Where `CursorController::move_home` goes.
pub open spec fn home_of(s: Seq<char>, pos: CursorPosition) -> CursorPosition {
    CursorPosition { line: pos.line, column: home_target(s, pos) as usize }
}

/// Where `CursorController::move_end` goes.
pub open spec fn end_of(s: Seq<char>, pos: CursorPosition) -> CursorPosition {
    CursorPosition {
        line: pos.line,
        column: len_or_zero(s, pos.line as int) as usize,
    }
}

/// Where `CursorController::move_page_up` goes.
pub open spec fn page_up_of(s: Seq<char>, pos: CursorPosition, viewport_lines: usize, preferred_col: Option<usize>) -> (CursorPosition, Option<usize>) {
    vertical_result(
        s,
        if pos.line >= viewport_lines { pos.line - viewport_lines } else { 0 },
        target_column(pos, preferred_col),
    )
}

/// Where `CursorController::move_page_down` goes.
pub open spec fn page_down_of(s: Seq<char>, pos: CursorPosition, viewport_lines: usize, preferred_col: Option<usize>) -> (CursorPosition, Option<usize>) {
    vertical_result(
        s,
        min_int(pos.line + viewport_lines, count_nl(s) as int),
        target_column(pos, preferred_col),
    )
}

/// Where `CursorController::move_document_end` goes.
pub open spec fn document_end_of(s: Seq<char>) -> CursorPosition {
    CursorPosition {
        line: count_nl(s) as usize,
        column: len_or_zero(s, count_nl(s) as int) as usize,
    }
}

/// Where `CursorController::go_to_line` goes.
pub open spec fn line_target_of(s: Seq<char>, line_number: usize) -> CursorPosition {
    CursorPosition {
        line: min_int(
            if line_number > 0 { line_number - 1 } else { 0 },
            count_nl(s) as int,
        ) as usize,
        column: 0,
    }
}

/// Where `CursorController::clamp` goes.
pub open spec fn clamped_of(s: Seq<char>, pos: CursorPosition) -> CursorPosition {
    CursorPosition {
        line: min_int(pos.line as int, count_nl(s) as int) as usize,
        column: min_int(
            pos.column as int,
            line_length(
                s,
                min_int(pos.line as int, count_nl(s) as int) as nat,
            ),
        ) as usize,
    }
}

/// Where `CursorController::move_word_left` goes.
pub open spec fn word_left_of(s: Seq<char>, pos: CursorPosition) -> CursorPosition {
    let idx = if pos.line <= count_nl(s) {
        offset_of(s, pos.line as nat, pos.column as nat)
    } else {
        0
    };
    let p = position_of(s, prev_boundary(s, idx) as nat);
    CursorPosition { line: p.0 as usize, column: p.1 as usize }
}

/// Where `CursorController::move_word_right` goes.
pub open spec fn word_right_of(s: Seq<char>, pos: CursorPosition) -> CursorPosition {
    let idx = if pos.line <= count_nl(s) {
        offset_of(s, pos.line as nat, pos.column as nat)
    } else {
        s.len() as int
    };
    let p = position_of(s, next_boundary(s, idx) as nat);
    CursorPosition { line: p.0 as usize, column: p.1 as usize }
}

/// Cursor controller for navigating within a text buffer
pub struct CursorController;

impl CursorController {
    /// Length of line `k`, or 0 past the last line.
    fn line_len_or_zero(buffer: &TextBuffer, k: usize) -> (r: usize)
        ensures
            r == len_or_zero(buffer@.text, k as int),
            r <= buffer@.text.len(),
    {
        match buffer.line_len(k) {
            Some(n) => n,
            None => 0,
        }
    }

    /// Move cursor left by one character, wrapping to the end of the
    /// previous line; no move at the document start
    pub fn move_left(buffer: &TextBuffer, pos: CursorPosition) -> (r: CursorPosition)
        ensures
            r == left_of(buffer@.text, pos),
    {
        if pos.column > 0 {
            CursorPosition::new(pos.line, pos.column - 1)
        } else if pos.line > 0 {
            let prev_line_len = Self::line_len_or_zero(buffer, pos.line - 1);
            CursorPosition::new(pos.line - 1, prev_line_len)
        } else {
            pos
        }
    }

    /// Move cursor right by one character, wrapping to the start of the
    /// next line; no move at the document end
    pub fn move_right(buffer: &TextBuffer, pos: CursorPosition) -> (r: CursorPosition)
        ensures
            r == right_of(buffer@.text, pos),
    {
        let line_len = Self::line_len_or_zero(buffer, pos.line);
        if pos.column < line_len {
            CursorPosition::new(pos.line, pos.column + 1)
        } else if pos.line < buffer.len_lines() - 1 {
            CursorPosition::new(pos.line + 1, 0)
        } else {
            pos
        }
    }

    /// Move cursor up by one line, aiming at the preferred column (or the
    /// current one) and returning that column as the new preference
    pub fn move_up(buffer: &TextBuffer, pos: CursorPosition, preferred_col: Option<usize>) -> (r: (
        CursorPosition,
        Option<usize>,
    ))
        ensures
            r == up_of(buffer@.text, pos, preferred_col),
    {
        if pos.line == 0 {
            return (pos, preferred_col);
        }
        let target_col = match preferred_col {
            Some(c) => c,
            None => pos.column,
        };
        let prev_line_len = Self::line_len_or_zero(buffer, pos.line - 1);
        let new_col = if target_col < prev_line_len {
            target_col
        } else {
            prev_line_len
        };
        (CursorPosition::new(pos.line - 1, new_col), Some(target_col))
    }

    /// Move cursor down by one line, aiming at the preferred column (or the
    /// current one) and returning that column as the new preference
    pub fn move_down(buffer: &TextBuffer, pos: CursorPosition, preferred_col: Option<usize>) -> (r: (
        CursorPosition,
        Option<usize>,
    ))
        ensures
            r == down_of(buffer@.text, pos, preferred_col),
    {
        if pos.line >= buffer.len_lines() - 1 {
            return (pos, preferred_col);
        }
        let target_col = match preferred_col {
            Some(c) => c,
            None => pos.column,
        };
        let next_line_len = Self::line_len_or_zero(buffer, pos.line + 1);
        let new_col = if target_col < next_line_len {
            target_col
        } else {
            next_line_len
        };
        (CursorPosition::new(pos.line + 1, new_col), Some(target_col))
    }

    /// Column of the first non-whitespace character of a line, 0 if none.
    fn first_non_ws_col(buffer: &TextBuffer, line_idx: usize) -> (r: usize)
        ensures
            r == first_non_ws(line_text(buffer@.text, line_idx as int)),
    {
        let ghost s = buffer@.text;
        let line = match buffer.line_without_newline(line_idx) {
            Some(l) => l,
            None => String::new(),
        };
        let ghost t = line_text(s, line_idx as int);
        assert(line@ == t);
        let n = line.as_str().unicode_len();
        let mut j: usize = 0;
        while j < n && char_is_whitespace(line.as_str().get_char(j))
            invariant
                j <= n == t.len(),
                line@ == t,
                scan_non_ws(t, j as int) == scan_non_ws(t, 0),
            decreases n - j,
        {
            j = j + 1;
        }
        if j == n {
            0
        } else {
            j
        }
    }

    /// Move cursor to start of line (smart home: from column 0 to the first
    /// non-whitespace column when the line is indented, else to column 0)
    pub fn move_home(buffer: &TextBuffer, pos: CursorPosition) -> (r: CursorPosition)
        ensures
            r == home_of(buffer@.text, pos),
    {
        let first_non_ws = Self::first_non_ws_col(buffer, pos.line);
        if pos.column == 0 && first_non_ws > 0 {
            CursorPosition::new(pos.line, first_non_ws)
        } else {
            CursorPosition::new(pos.line, 0)
        }
    }

    /// Move cursor to end of line (its length, newline excluded)
    pub fn move_end(buffer: &TextBuffer, pos: CursorPosition) -> (r: CursorPosition)
        ensures
            r == end_of(buffer@.text, pos),
    {
        let line_len = Self::line_len_or_zero(buffer, pos.line);
        CursorPosition::new(pos.line, line_len)
    }

    /// Move cursor to start of previous word
    pub fn move_word_left(buffer: &TextBuffer, pos: CursorPosition) -> (r: CursorPosition)
        ensures
            r == word_left_of(buffer@.text, pos),
    {
        let char_idx = match buffer.line_col_to_char(pos.line, pos.column) {
            Some(i) => i,
            None => 0,
        };
        let new_idx = buffer.prev_word_boundary(char_idx);
        let (line, col) = buffer.char_to_line_col(new_idx);
        CursorPosition::new(line, col)
    }

    /// Move cursor to start of next word
    pub fn move_word_right(buffer: &TextBuffer, pos: CursorPosition) -> (r: CursorPosition)
        ensures
            r == word_right_of(buffer@.text, pos),
    {
        let char_idx = match buffer.line_col_to_char(pos.line, pos.column) {
            Some(i) => i,
            None => buffer.len_chars(),
        };
        let new_idx = buffer.next_word_boundary(char_idx);
        let (line, col) = buffer.char_to_line_col(new_idx);
        CursorPosition::new(line, col)
    }

    /// Move cursor up by a page (viewport_lines lines, stopping at line 0)
    pub fn move_page_up(
        buffer: &TextBuffer,
        pos: CursorPosition,
        viewport_lines: usize,
        preferred_col: Option<usize>,
    ) -> (r: (CursorPosition, Option<usize>))
        ensures
            r == page_up_of(buffer@.text, pos, viewport_lines, preferred_col),
    {
        let target_col = match preferred_col {
            Some(c) => c,
            None => pos.column,
        };
        let new_line = if pos.line >= viewport_lines {
            pos.line - viewport_lines
        } else {
            0
        };
        let line_len = Self::line_len_or_zero(buffer, new_line);
        let new_col = if target_col < line_len {
            target_col
        } else {
            line_len
        };
        (CursorPosition::new(new_line, new_col), Some(target_col))
    }

    /// Move cursor down by a page (viewport_lines lines, stopping at the
    /// last line)
    pub fn move_page_down(
        buffer: &TextBuffer,
        pos: CursorPosition,
        viewport_lines: usize,
        preferred_col: Option<usize>,
    ) -> (r: (CursorPosition, Option<usize>))
        ensures
            r == page_down_of(buffer@.text, pos, viewport_lines, preferred_col),
    {
        let target_col = match preferred_col {
            Some(c) => c,
            None => pos.column,
        };
        let max_line = buffer.len_lines() - 1;
        let new_line = if pos.line >= max_line || viewport_lines >= max_line - pos.line {
            max_line
        } else {
            pos.line + viewport_lines
        };
        let line_len = Self::line_len_or_zero(buffer, new_line);
        let new_col = if target_col < line_len {
            target_col
        } else {
            line_len
        };
        (CursorPosition::new(new_line, new_col), Some(target_col))
    }

    /// Move cursor to start of document
    pub fn move_document_start() -> (r: CursorPosition)
        ensures
            r == CursorPosition::start_spec(),
    {
        CursorPosition::new(0, 0)
    }

    /// Move cursor to end of document: the end of the last line
    pub fn move_document_end(buffer: &TextBuffer) -> (r: CursorPosition)
        ensures
            r == document_end_of(buffer@.text),
    {
        let last_line = buffer.len_lines() - 1;
        let last_col = Self::line_len_or_zero(buffer, last_line);
        CursorPosition::new(last_line, last_col)
    }

    /// Move cursor to a line given 1-indexed, clamped to the last line,
    /// at column 0
    pub fn go_to_line(buffer: &TextBuffer, line_number: usize) -> (r: CursorPosition)
        ensures
            r == line_target_of(buffer@.text, line_number),
    {
        let line = if line_number > 0 {
            line_number - 1
        } else {
            0
        };
        let max_line = buffer.len_lines() - 1;
        let target_line = if line < max_line {
            line
        } else {
            max_line
        };
        CursorPosition::new(target_line, 0)
    }

    /// Force a position into the buffer: the line into its lines, the
    /// column into that line's length
    pub fn clamp(buffer: &TextBuffer, pos: CursorPosition) -> (r: CursorPosition)
        ensures
            r == clamped_of(buffer@.text, pos),
            r.line <= count_nl(buffer@.text),
            r.column <= line_length(buffer@.text, r.line as nat),
    {
        let max_line = buffer.len_lines() - 1;
        let line = if pos.line < max_line {
            pos.line
        } else {
            max_line
        };
        let line_len = Self::line_len_or_zero(buffer, line);
        let col = if pos.column < line_len {
            pos.column
        } else {
            line_len
        };
        CursorPosition::new(line, col)
    }
}

/// Calculate the scroll position (first visible line) that keeps the cursor
/// visible with a margin of lines, the margin at most half the viewport
pub fn calculate_scroll(
    cursor_line: usize,
    current_scroll: usize,
    viewport_lines: usize,
    scroll_margin: usize,
) -> (r: usize)
    ensures
        r == scroll_target(
            cursor_line as int,
            current_scroll as int,
            viewport_lines as int,
            scroll_margin as int,
        ),
{
    let half = viewport_lines / 2;
    let margin = if scroll_margin < half {
        scroll_margin
    } else {
        half
    };
    let cursor = cursor_line as u128;
    let current = current_scroll as u128;
    let viewport = viewport_lines as u128;
    let m = margin as u128;
    if cursor < current + m {
        if cursor_line >= margin {
            return cursor_line - margin;
        } else {
            return 0;
        }
    }
    if cursor + m >= current + viewport {
        let target = cursor + m + 1 - viewport;
        if target > usize::MAX as u128 {
            return usize::MAX;
        }
        return target as usize;
    }
    current_scroll
}

} // verus!
