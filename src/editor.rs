//! Core text editing: buffer, cursor movement, undo history and the editor
//! session.

pub mod buffer;
pub mod cursor;
pub mod undo;

pub use buffer::{LineEnding, TextBuffer};
pub use cursor::CursorController;
pub use undo::{EditKind, EditOperation, UndoManager};

use vstd::prelude::*;
use crate::editor::buffer::{
    after_delete, after_insert, count_nl, next_boundary, offset_of, output, position_of,
    prev_boundary, BufferModel,
};
use crate::editor::cursor::{
    calculate_scroll, clamped_of, document_end_of, down_of, end_of, home_of, left_of, len_or_zero,
    line_target_of, page_down_of, page_up_of, right_of, scroll_target, up_of, word_left_of,
    word_right_of,
};
use crate::state::editor_state::{CursorPosition, EditorState, Selection};

verus! {

/// Newlines in `t`, and the number of characters after its last newline
/// (all of `t` when it has none).
pub open spec fn tail_len(t: Seq<char>) -> nat
    decreases t.len(),
{
    if t.len() == 0 {
        0
    } else if t.last() == '\n' {
        0
    } else {
        tail_len(t.drop_last()) + 1
    }
}

/// What an editing session holds.
pub struct EditorModel {
    pub buffer: BufferModel,
    pub state: EditorState,
    pub preferred_col: Option<usize>,
    pub viewport_lines: usize,
    pub scroll_line: usize,
    pub scroll_margin: usize,
}

/// Offset of a position, or `dflt` when its line is past the last.
pub open spec fn offset_or(s: Seq<char>, p: CursorPosition, dflt: int) -> int {
    if p.line <= count_nl(s) {
        offset_of(s, p.line as nat, p.column as nat)
    } else {
        dflt
    }
}

/// The selection covers text (its two ends differ).
pub open spec fn has_selection_spec(m: EditorModel) -> bool {
    m.state.selection.start != m.state.selection.end
}

/// `m` with the scroll line recomputed to keep the cursor visible.
pub open spec fn scrolled(m: EditorModel) -> EditorModel {
    EditorModel {
        scroll_line: scroll_target(
            m.state.cursor.line as int,
            m.scroll_line as int,
            m.viewport_lines as int,
            m.scroll_margin as int,
        ) as usize,
        ..m
    }
}

/// `m` with the cursor moved to `pos` and the preferred column set to
/// `pref`. When extending, the anchor stays (or is fixed at the old cursor
/// if the selection was collapsed) and the active end follows the cursor;
/// otherwise the selection collapses at the cursor.
pub open spec fn moved(
    m: EditorModel,
    pos: CursorPosition,
    pref: Option<usize>,
    extend: bool,
) -> EditorModel {
    let anchor = if m.state.selection.start == m.state.selection.end {
        m.state.cursor
    } else {
        m.state.selection.start
    };
    let sel = if extend {
        Selection { start: anchor, end: pos }
    } else {
        Selection { start: pos, end: pos }
    };
    scrolled(
        EditorModel {
            state: EditorState { cursor: pos, selection: sel, ..m.state },
            preferred_col: pref,
            ..m
        },
    )
}

/// `m` with `pos` as cursor and a collapsed selection there.
pub open spec fn placed(m: EditorModel, buffer: BufferModel, pos: CursorPosition) -> EditorModel {
    EditorModel {
        buffer: buffer,
        state: EditorState {
            cursor: pos,
            selection: Selection { start: pos, end: pos },
            ..m.state
        },
        preferred_col: None,
        ..m
    }
}

/// `m` with its selected text deleted and the cursor at the selection's
/// start; unchanged when the selection is collapsed.
pub open spec fn selection_removed(m: EditorModel) -> EditorModel {
    if !has_selection_spec(m) {
        m
    } else {
        let s = m.buffer.text;
        let (a, b) = m.state.selection.ordered();
        placed(m, after_delete(m.buffer, offset_or(s, a, 0), offset_or(s, b, s.len() as int)), a)
    }
}

/// Where the cursor goes after typing `t` at `c`.
pub open spec fn after_typing(c: CursorPosition, t: Seq<char>) -> CursorPosition {
    if count_nl(t) > 0 {
        CursorPosition { line: (c.line + count_nl(t)) as usize, column: tail_len(t) as usize }
    } else {
        CursorPosition { line: c.line, column: (c.column + t.len()) as usize }
    }
}

/// `m` after inserting `t` at the cursor (no selection handling).
pub open spec fn typed(m: EditorModel, t: Seq<char>) -> EditorModel {
    let s = m.buffer.text;
    scrolled(
        placed(
            m,
            after_insert(m.buffer, offset_or(s, m.state.cursor, s.len() as int), t),
            after_typing(m.state.cursor, t),
        ),
    )
}

/// The room an insertion of `t` needs: version counter and cursor fit.
pub open spec fn typing_fits(m: EditorModel, t: Seq<char>) -> bool {
    &&& m.buffer.version + 2 <= u64::MAX
    &&& selection_removed(m).state.cursor.line + count_nl(t) <= usize::MAX
    &&& selection_removed(m).state.cursor.column + t.len() <= usize::MAX
}

/// `m` after a backspace.
pub open spec fn backspaced(m: EditorModel) -> EditorModel {
    if has_selection_spec(m) {
        selection_removed(m)
    } else if m.state.cursor.line == 0 && m.state.cursor.column == 0 {
        m
    } else {
        let s = m.buffer.text;
        let c = m.state.cursor;
        let idx = offset_or(s, c, 0);
        if idx > 0 {
            let b2 = after_delete(m.buffer, idx - 1, idx);
            let c2 = if s[idx - 1] == '\n' && c.line > 0 {
                CursorPosition {
                    line: (c.line - 1) as usize,
                    column: len_or_zero(s, c.line - 1) as usize,
                }
            } else {
                CursorPosition {
                    line: c.line,
                    column: if c.column > 0 { (c.column - 1) as usize } else { 0 },
                }
            };
            scrolled(placed(m, b2, c2))
        } else {
            scrolled(placed(m, m.buffer, c))
        }
    }
}

/// `m` after a forward delete: the character at the cursor leaves and
/// the cursor stays.
pub open spec fn forward_deleted(m: EditorModel) -> EditorModel {
    if has_selection_spec(m) {
        selection_removed(m)
    } else {
        let s = m.buffer.text;
        let idx = offset_or(s, m.state.cursor, s.len() as int);
        EditorModel {
            buffer: if idx < s.len() {
                after_delete(m.buffer, idx, idx + 1)
            } else {
                m.buffer
            },
            preferred_col: None,
            ..m
        }
    }
}

/// `m` after deleting back to the previous word boundary.
pub open spec fn word_left_deleted(m: EditorModel) -> EditorModel {
    if has_selection_spec(m) {
        selection_removed(m)
    } else {
        let s = m.buffer.text;
        let idx = offset_or(s, m.state.cursor, 0);
        if idx > 0 {
            let ws = prev_boundary(s, idx);
            let b2 = after_delete(m.buffer, ws, idx);
            let p = position_of(b2.text, ws as nat);
            scrolled(placed(m, b2, CursorPosition { line: p.0 as usize, column: p.1 as usize }))
        } else {
            scrolled(placed(m, m.buffer, m.state.cursor))
        }
    }
}

/// `m` after deleting forward to the next word boundary.
pub open spec fn word_right_deleted(m: EditorModel) -> EditorModel {
    if has_selection_spec(m) {
        selection_removed(m)
    } else {
        let s = m.buffer.text;
        let idx = offset_or(s, m.state.cursor, s.len() as int);
        EditorModel {
            buffer: if idx < s.len() {
                after_delete(m.buffer, idx, next_boundary(s, idx))
            } else {
                m.buffer
            },
            preferred_col: None,
            ..m
        }
    }
}

/// Main editor component managing a text buffer and state
pub struct Editor {
    buffer: TextBuffer,
    state: EditorState,
    preferred_col: Option<usize>,
    viewport_lines: usize,
    scroll_line: usize,
    scroll_margin: usize,
}

impl View for Editor {
    type V = EditorModel;

    closed spec fn view(&self) -> EditorModel {
        EditorModel {
            buffer: self.buffer@,
            state: self.state,
            preferred_col: self.preferred_col,
            viewport_lines: self.viewport_lines,
            scroll_line: self.scroll_line,
            scroll_margin: self.scroll_margin,
        }
    }
}

/// Number of newlines in `text`, and of the characters after the last one.
fn newline_shape(text: &str) -> (r: (usize, usize))
    ensures
        r.0 == count_nl(text@),
        r.1 == tail_len(text@),
{
    let n = text.unicode_len();
    let mut nl: usize = 0;
    let mut tail: usize = 0;
    let mut i: usize = 0;
    while i < n
        invariant
            n == text@.len(),
            i <= n,
            nl == count_nl(text@.subrange(0, i as int)),
            tail == tail_len(text@.subrange(0, i as int)),
            nl <= i,
            tail <= i,
        decreases n - i,
    {
        let c = text.get_char(i);
        assert(text@.subrange(0, i + 1).drop_last() =~= text@.subrange(0, i as int));
        if c == '\n' {
            nl = nl + 1;
            tail = 0;
        } else {
            tail = tail + 1;
        }
        i = i + 1;
    }
    assert(text@.subrange(0, n as int) =~= text@);
    (nl, tail)
}

impl Editor {
    /// Create a new empty editor
    pub fn new() -> (r: Self)
        ensures
            r@.buffer == crate::editor::buffer::from_text(Seq::empty()),
            r@.state.is_fresh(),
            r@.preferred_col is None,
            r@.viewport_lines == 30,
            r@.scroll_line == 0,
            r@.scroll_margin == 3,
    {
        Editor {
            buffer: TextBuffer::new(),
            state: EditorState::new(),
            preferred_col: None,
            viewport_lines: 30,
            scroll_line: 0,
            scroll_margin: 3,
        }
    }

    /// Create editor with initial content
    pub fn with_content(content: &str) -> (r: Self)
        ensures
            r@.buffer == crate::editor::buffer::from_text(content@),
            r@.state.is_fresh(),
            r@.preferred_col is None,
            r@.viewport_lines == 30,
            r@.scroll_line == 0,
            r@.scroll_margin == 3,
    {
        Editor {
            buffer: TextBuffer::from_str(content),
            state: EditorState::new(),
            preferred_col: None,
            viewport_lines: 30,
            scroll_line: 0,
            scroll_margin: 3,
        }
    }

    /// Get the text buffer reference
    pub fn buffer(&self) -> (r: &TextBuffer)
        ensures
            r@ == self@.buffer,
    {
        &self.buffer
    }

    /// Get the editor state
    pub fn state(&self) -> (r: &EditorState)
        ensures
            *r == self@.state,
    {
        &self.state
    }

    /// Get cursor position
    pub fn cursor(&self) -> (r: CursorPosition)
        ensures
            r == self@.state.cursor,
    {
        self.state.cursor
    }

    /// Recompute the scroll line to keep the cursor visible.
    fn update_scroll(&mut self)
        ensures
            final(self)@ == scrolled(old(self)@),
    {
        self.scroll_line = calculate_scroll(
            self.state.cursor.line,
            self.scroll_line,
            self.viewport_lines,
            self.scroll_margin,
        );
    }

    /// Set cursor position (clamped into the buffer), collapse the
    /// selection there and update scroll
    pub fn set_cursor(&mut self, pos: CursorPosition)
        ensures
            final(self)@ == scrolled(placed(old(self)@, old(self)@.buffer, clamped_of(old(self)@.buffer.text, pos))),
    {
        let clamped = CursorController::clamp(&self.buffer, pos);
        self.state.cursor = clamped;
        self.state.selection = Selection::collapsed(clamped);
        self.update_scroll();
        self.preferred_col = None;
    }

    /// Get current selection (None if collapsed)
    pub fn selection(&self) -> (r: Option<&Selection>)
        ensures
            has_selection_spec(self@) ==> r == Some(&self@.state.selection),
            !has_selection_spec(self@) ==> r is None,
    {
        if self.state.selection.is_collapsed() {
            None
        } else {
            Some(&self.state.selection)
        }
    }

    /// Check if there's an active selection (non-collapsed)
    pub fn has_selection(&self) -> (r: bool)
        ensures
            r == has_selection_spec(self@),
    {
        !self.state.selection.is_collapsed()
    }

    /// Set selection (the cursor is left where it is)
    pub fn set_selection(&mut self, selection: Selection)
        ensures
            final(self)@ == (EditorModel {
                state: EditorState { selection: selection, ..old(self)@.state },
                ..old(self)@
            }),
    {
        self.state.selection = selection;
    }

    /// Get current scroll line
    pub fn scroll_line(&self) -> (r: usize)
        ensures
            r == self@.scroll_line,
    {
        self.scroll_line
    }

    /// Set viewport size and update scroll
    pub fn set_viewport_lines(&mut self, lines: usize)
        ensures
            final(self)@ == scrolled(EditorModel { viewport_lines: lines, ..old(self)@ }),
    {
        self.viewport_lines = lines;
        self.update_scroll();
    }

    /// Check if buffer is modified
    pub fn is_modified(&self) -> (r: bool)
        ensures
            r == (self@.buffer.modified || self@.buffer.version != self@.buffer.saved_version),
    {
        self.buffer.is_modified()
    }

    /// Mark buffer as saved
    pub fn mark_saved(&mut self)
        ensures
            final(self)@ == (EditorModel {
                buffer: BufferModel {
                    modified: false,
                    saved_version: old(self)@.buffer.version,
                    ..old(self)@.buffer
                },
                ..old(self)@
            }),
    {
        self.buffer.mark_saved();
    }

    /// Get full content as string, with the detected line ending restored
    pub fn content(&self) -> (r: String)
        ensures
            r@ == output(self@.buffer),
    {
        self.buffer.to_string()
    }

    /// Set content (replaces everything and resets the session state;
    /// viewport size and margin stay)
    pub fn set_content(&mut self, content: &str)
        ensures
            final(self)@.buffer == crate::editor::buffer::from_text(content@),
            final(self)@.state.is_fresh(),
            final(self)@.preferred_col is None,
            final(self)@.scroll_line == 0,
            final(self)@.viewport_lines == old(self)@.viewport_lines,
            final(self)@.scroll_margin == old(self)@.scroll_margin,
    {
        self.buffer = TextBuffer::from_str(content);
        self.state = EditorState::new();
        self.preferred_col = None;
        self.scroll_line = 0;
    }

    /// Apply a movement to `pos` with preferred column `pref`.
    fn apply_move(&mut self, pos: CursorPosition, pref: Option<usize>, extend_selection: bool)
        ensures
            final(self)@ == moved(old(self)@, pos, pref, extend_selection),
    {
        if extend_selection {
            if self.state.selection.is_collapsed() {
                self.state.selection = Selection::new(self.state.cursor, self.state.cursor);
            }
        }
        self.state.cursor = pos;
        self.preferred_col = pref;
        if extend_selection {
            self.state.selection.end = self.state.cursor;
        } else {
            self.state.selection = Selection::collapsed(self.state.cursor);
        }
        self.update_scroll();
    }

    /// Move cursor left
    pub fn move_left(&mut self, extend_selection: bool)
        ensures
            final(self)@ == moved(
                old(self)@,
                left_of(old(self)@.buffer.text, old(self)@.state.cursor),
                None,
                extend_selection,
            ),
    {
        let new_pos = CursorController::move_left(&self.buffer, self.state.cursor);
        self.apply_move(new_pos, None, extend_selection);
    }

    /// Move cursor right
    pub fn move_right(&mut self, extend_selection: bool)
        ensures
            final(self)@ == moved(
                old(self)@,
                right_of(old(self)@.buffer.text, old(self)@.state.cursor),
                None,
                extend_selection,
            ),
    {
        let new_pos = CursorController::move_right(&self.buffer, self.state.cursor);
        self.apply_move(new_pos, None, extend_selection);
    }

    /// Move cursor up, keeping the preferred column
    pub fn move_up(&mut self, extend_selection: bool)
        ensures
            ({
                let r = up_of(old(self)@.buffer.text, old(self)@.state.cursor, old(self)@.preferred_col);
                final(self)@ == moved(old(self)@, r.0, r.1, extend_selection)
            }),
    {
        let (new_pos, pref) = CursorController::move_up(
            &self.buffer,
            self.state.cursor,
            self.preferred_col,
        );
        self.apply_move(new_pos, pref, extend_selection);
    }

    /// Move cursor down, keeping the preferred column
    pub fn move_down(&mut self, extend_selection: bool)
        ensures
            ({
                let r = down_of(old(self)@.buffer.text, old(self)@.state.cursor, old(self)@.preferred_col);
                final(self)@ == moved(old(self)@, r.0, r.1, extend_selection)
            }),
    {
        let (new_pos, pref) = CursorController::move_down(
            &self.buffer,
            self.state.cursor,
            self.preferred_col,
        );
        self.apply_move(new_pos, pref, extend_selection);
    }

    /// Move cursor to line start (smart home)
    pub fn move_home(&mut self, extend_selection: bool)
        ensures
            final(self)@ == moved(
                old(self)@,
                home_of(old(self)@.buffer.text, old(self)@.state.cursor),
                None,
                extend_selection,
            ),
    {
        let new_pos = CursorController::move_home(&self.buffer, self.state.cursor);
        self.apply_move(new_pos, None, extend_selection);
    }

    /// Move cursor to line end
    pub fn move_end(&mut self, extend_selection: bool)
        ensures
            final(self)@ == moved(
                old(self)@,
                end_of(old(self)@.buffer.text, old(self)@.state.cursor),
                None,
                extend_selection,
            ),
    {
        let new_pos = CursorController::move_end(&self.buffer, self.state.cursor);
        self.apply_move(new_pos, None, extend_selection);
    }

    /// Move cursor to previous word
    pub fn move_word_left(&mut self, extend_selection: bool)
        ensures
            final(self)@ == moved(
                old(self)@,
                word_left_of(old(self)@.buffer.text, old(self)@.state.cursor),
                None,
                extend_selection,
            ),
    {
        let new_pos = CursorController::move_word_left(&self.buffer, self.state.cursor);
        self.apply_move(new_pos, None, extend_selection);
    }

    /// Move cursor to next word
    pub fn move_word_right(&mut self, extend_selection: bool)
        ensures
            final(self)@ == moved(
                old(self)@,
                word_right_of(old(self)@.buffer.text, old(self)@.state.cursor),
                None,
                extend_selection,
            ),
    {
        let new_pos = CursorController::move_word_right(&self.buffer, self.state.cursor);
        self.apply_move(new_pos, None, extend_selection);
    }

    /// Move cursor up by page
    pub fn page_up(&mut self, extend_selection: bool)
        ensures
            ({
                let r = page_up_of(
                    old(self)@.buffer.text,
                    old(self)@.state.cursor,
                    old(self)@.viewport_lines,
                    old(self)@.preferred_col,
                );
                final(self)@ == moved(old(self)@, r.0, r.1, extend_selection)
            }),
    {
        let (new_pos, pref) = CursorController::move_page_up(
            &self.buffer,
            self.state.cursor,
            self.viewport_lines,
            self.preferred_col,
        );
        self.apply_move(new_pos, pref, extend_selection);
    }

    /// Move cursor down by page
    pub fn page_down(&mut self, extend_selection: bool)
        ensures
            ({
                let r = page_down_of(
                    old(self)@.buffer.text,
                    old(self)@.state.cursor,
                    old(self)@.viewport_lines,
                    old(self)@.preferred_col,
                );
                final(self)@ == moved(old(self)@, r.0, r.1, extend_selection)
            }),
    {
        let (new_pos, pref) = CursorController::move_page_down(
            &self.buffer,
            self.state.cursor,
            self.viewport_lines,
            self.preferred_col,
        );
        self.apply_move(new_pos, pref, extend_selection);
    }

    /// Move cursor to document start
    pub fn move_document_start(&mut self, extend_selection: bool)
        ensures
            final(self)@ == moved(old(self)@, CursorPosition::start_spec(), None, extend_selection),
    {
        let new_pos = CursorController::move_document_start();
        self.apply_move(new_pos, None, extend_selection);
    }

    /// Move cursor to document end
    pub fn move_document_end(&mut self, extend_selection: bool)
        ensures
            final(self)@ == moved(
                old(self)@,
                document_end_of(old(self)@.buffer.text),
                None,
                extend_selection,
            ),
    {
        let new_pos = CursorController::move_document_end(&self.buffer);
        self.apply_move(new_pos, None, extend_selection);
    }

    /// Go to specific line number (1-indexed), collapsing the selection
    pub fn go_to_line(&mut self, line_number: usize)
        ensures
            final(self)@ == scrolled(
                EditorModel {
                    state: EditorState {
                        cursor: line_target_of(old(self)@.buffer.text, line_number),
                        selection: Selection {
                            start: old(self)@.state.cursor,
                            end: old(self)@.state.cursor,
                        },
                        ..old(self)@.state
                    },
                    preferred_col: None,
                    ..old(self)@
                },
            ),
    {
        self.clear_selection();
        self.state.cursor = CursorController::go_to_line(&self.buffer, line_number);
        self.preferred_col = None;
        self.update_scroll();
    }

    /// Clear current selection (collapse it at the cursor)
    pub fn clear_selection(&mut self)
        ensures
            final(self)@ == (EditorModel {
                state: EditorState {
                    selection: Selection {
                        start: old(self)@.state.cursor,
                        end: old(self)@.state.cursor,
                    },
                    ..old(self)@.state
                },
                ..old(self)@
            }),
    {
        self.state.selection = Selection::collapsed(self.state.cursor);
    }

    /// Select all text; the cursor goes to the document end
    pub fn select_all(&mut self)
        ensures
            final(self)@ == (EditorModel {
                state: EditorState {
                    cursor: document_end_of(old(self)@.buffer.text),
                    selection: Selection {
                        start: CursorPosition::start_spec(),
                        end: document_end_of(old(self)@.buffer.text),
                    },
                    ..old(self)@.state
                },
                ..old(self)@
            }),
    {
        let start = CursorPosition::new(0, 0);
        let end = CursorController::move_document_end(&self.buffer);
        self.state.selection = Selection::new(start, end);
        self.state.cursor = end;
    }

    /// Offset of a position, or `dflt` when its line is past the last.
    fn offset_or_else(&self, p: CursorPosition, dflt: usize) -> (r: usize)
        ensures
            r == offset_or(self@.buffer.text, p, dflt as int),
            p.line <= count_nl(self@.buffer.text) ==> r <= self@.buffer.text.len(),
            self@.buffer.text.len() <= usize::MAX,
    {
        match self.buffer.line_col_to_char(p.line, p.column) {
            Some(i) => i,
            None => dflt,
        }
    }

    /// Delete current selection if any, returns true if something was deleted
    fn delete_selection(&mut self) -> (r: bool)
        requires
            old(self)@.buffer.version < u64::MAX,
        ensures
            r == has_selection_spec(old(self)@),
            final(self)@ == selection_removed(old(self)@),
    {
        if self.state.selection.is_collapsed() {
            return false;
        }
        let (start, end) = self.state.selection.normalized();
        let start_idx = self.offset_or_else(start, 0);
        let len = self.buffer.len_chars();
        let end_idx = self.offset_or_else(end, len);
        self.buffer.delete_range(start_idx, end_idx);
        self.state.cursor = start;
        self.state.selection = Selection::collapsed(start);
        self.preferred_col = None;
        true
    }

    /// Insert a character at cursor position, replacing the selection
    pub fn insert_char(&mut self, ch: char)
        requires
            typing_fits(old(self)@, seq![ch]),
        ensures
            final(self)@ == typed(selection_removed(old(self)@), seq![ch]),
    {
        self.delete_selection();
        let len = self.buffer.len_chars();
        let char_idx = self.offset_or_else(self.state.cursor, len);
        self.buffer.insert_char(char_idx, ch);
        proof {
            let one = seq![ch];
            assert(one.drop_last() =~= Seq::<char>::empty());
            assert(one.last() == ch);
            assert(count_nl(one.drop_last()) == 0);
            assert(tail_len(one.drop_last()) == 0);
            assert(count_nl(one) == if ch == '\n' { 1nat } else { 0nat });
            assert(tail_len(one) == if ch == '\n' { 0nat } else { 1nat });
        }
        if ch == '\n' {
            self.state.cursor = CursorPosition::new(self.state.cursor.line + 1, 0);
        } else {
            self.state.cursor.column = self.state.cursor.column + 1;
        }
        self.state.selection = Selection::collapsed(self.state.cursor);
        self.preferred_col = None;
        self.update_scroll();
    }

    /// Insert text at cursor position, replacing the selection; the cursor
    /// goes just after the inserted text
    pub fn insert_text(&mut self, text: &str)
        requires
            typing_fits(old(self)@, text@),
        ensures
            final(self)@ == typed(selection_removed(old(self)@), text@),
    {
        self.delete_selection();
        let len = self.buffer.len_chars();
        let char_idx = self.offset_or_else(self.state.cursor, len);
        self.buffer.insert_str(char_idx, text);
        let (newlines, tail) = newline_shape(text);
        proof {
            lemma_tail_bound(text@);
        }
        if newlines > 0 {
            self.state.cursor = CursorPosition::new(self.state.cursor.line + newlines, tail);
        } else {
            self.state.cursor.column = self.state.cursor.column + tail;
        }
        self.state.selection = Selection::collapsed(self.state.cursor);
        self.preferred_col = None;
        self.update_scroll();
    }

    /// Delete character before cursor (backspace)
    pub fn backspace(&mut self)
        requires
            old(self)@.buffer.version < u64::MAX,
        ensures
            final(self)@ == backspaced(old(self)@),
    {
        if self.delete_selection() {
            return;
        }
        if self.state.cursor.line == 0 && self.state.cursor.column == 0 {
            return;
        }
        let char_idx = self.offset_or_else(self.state.cursor, 0);
        if char_idx > 0 {
            let del_char = self.buffer.char_at(char_idx - 1);
            let prev_col = if self.state.cursor.line > 0 {
                match self.buffer.line_len(self.state.cursor.line - 1) {
                    Some(n) => n,
                    None => 0,
                }
            } else {
                0
            };
            self.buffer.delete_range(char_idx - 1, char_idx);
            if del_char == Some('\n') && self.state.cursor.line > 0 {
                let prev_line = self.state.cursor.line - 1;
                self.state.cursor = CursorPosition::new(prev_line, prev_col);
            } else {
                self.state.cursor.column = if self.state.cursor.column > 0 {
                    self.state.cursor.column - 1
                } else {
                    0
                };
            }
        }
        self.state.selection = Selection::collapsed(self.state.cursor);
        self.preferred_col = None;
        self.update_scroll();
    }

    /// Delete character after cursor (delete key); the cursor stays
    pub fn delete(&mut self)
        requires
            old(self)@.buffer.version < u64::MAX,
        ensures
            final(self)@ == forward_deleted(old(self)@),
    {
        if self.delete_selection() {
            return;
        }
        let len = self.buffer.len_chars();
        let char_idx = self.offset_or_else(self.state.cursor, len);
        if char_idx < len {
            self.buffer.delete_range(char_idx, char_idx + 1);
        }
        self.preferred_col = None;
    }

    /// Get selected text, if any
    pub fn selected_text(&self) -> (r: Option<String>)
        ensures
            !has_selection_spec(self@) ==> r is None,
            has_selection_spec(self@) ==> ({
                let s = self@.buffer.text;
                let (a, b) = self@.state.selection.ordered();
                let i = offset_or(s, a, 0);
                let j = offset_or(s, b, s.len() as int);
                r matches Some(t) && t@ == if i < j { s.subrange(i, j) } else { Seq::empty() }
            }),
    {
        if self.state.selection.is_collapsed() {
            return None;
        }
        let (start, end) = self.state.selection.normalized();
        let start_idx = self.offset_or_else(start, 0);
        let len = self.buffer.len_chars();
        let end_idx = self.offset_or_else(end, len);
        Some(self.buffer.slice(start_idx, end_idx))
    }

    /// Delete word before cursor
    pub fn delete_word_left(&mut self)
        requires
            old(self)@.buffer.version < u64::MAX,
        ensures
            final(self)@ == word_left_deleted(old(self)@),
    {
        if self.delete_selection() {
            return;
        }
        let char_idx = self.offset_or_else(self.state.cursor, 0);
        if char_idx > 0 {
            let word_start = self.buffer.prev_word_boundary(char_idx);
            self.buffer.delete_range(word_start, char_idx);
            let (line, col) = self.buffer.char_to_line_col(word_start);
            self.state.cursor = CursorPosition::new(line, col);
        }
        self.state.selection = Selection::collapsed(self.state.cursor);
        self.preferred_col = None;
        self.update_scroll();
    }

    /// Delete word after cursor; the cursor stays
    pub fn delete_word_right(&mut self)
        requires
            old(self)@.buffer.version < u64::MAX,
        ensures
            final(self)@ == word_right_deleted(old(self)@),
    {
        if self.delete_selection() {
            return;
        }
        let len = self.buffer.len_chars();
        let char_idx = self.offset_or_else(self.state.cursor, len);
        if char_idx < len {
            let word_end = self.buffer.next_word_boundary(char_idx);
            self.buffer.delete_range(char_idx, word_end);
        }
        self.preferred_col = None;
    }

    /// Get total line count
    pub fn line_count(&self) -> (r: usize)
        ensures
            r == count_nl(self@.buffer.text) + 1,
    {
        self.buffer.len_lines()
    }

    /// Get character count
    pub fn char_count(&self) -> (r: usize)
        ensures
            r == self@.buffer.text.len(),
    {
        self.buffer.len_chars()
    }

    /// Get specific line content, without its newline
    pub fn get_line(&self, line_idx: usize) -> (r: Option<String>)
        ensures
            line_idx > count_nl(self@.buffer.text) ==> r is None,
            line_idx <= count_nl(self@.buffer.text) ==> (r matches Some(l) && l@
                == crate::editor::cursor::line_text(self@.buffer.text, line_idx as int)),
    {
        self.buffer.line_without_newline(line_idx)
    }
}

proof fn lemma_tail_bound(t: Seq<char>)
    ensures
        tail_len(t) <= t.len(),
        count_nl(t) == 0 ==> tail_len(t) == t.len(),
    decreases t.len(),
{
    if t.len() > 0 {
        lemma_tail_bound(t.drop_last());
    }
}

impl Default for Editor {
    fn default() -> (r: Self)
        ensures
            r@.buffer == crate::editor::buffer::from_text(Seq::empty()),
            r@.state.is_fresh(),
    {
        Editor::new()
    }
}

} // verus!
