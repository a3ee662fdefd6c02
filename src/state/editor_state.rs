//! Per-document editor state: cursor position, selection, scroll offset,
//! undo/redo stacks and find-result navigation.

use vstd::prelude::*;
use crate::utils::{decimal, now_millis, usize_to_string};

verus! {

/// Largest number of operations kept in a document's undo history.
pub const MAX_UNDO_HISTORY: usize = 1000;

/// Longest pause, in milliseconds, between two insertions that still merge.
pub const MERGE_WINDOW_MS: u64 = 500;

/// Cursor position in the document (zero-based line and character column).
#[derive(Debug, Clone, Copy, PartialEq, Eq, Structural)]
pub struct CursorPosition {
    /// Line number (0-indexed)
    pub line: usize,
    /// Column/character offset within the line (0-indexed)
    pub column: usize,
}

/// `a` comes at or before `b` in document order.
pub open spec fn precedes(a: CursorPosition, b: CursorPosition) -> bool {
    a.line < b.line || (a.line == b.line && a.column <= b.column)
}

impl CursorPosition {
    /// Create a new cursor position
    pub fn new(line: usize, column: usize) -> (r: Self)
        ensures
            r.line == line,
            r.column == column,
    {
        CursorPosition { line, column }
    }

    /// Create cursor at the start of the document
    pub fn start() -> (r: Self)
        ensures
            r.line == 0,
            r.column == 0,
    {
        CursorPosition { line: 0, column: 0 }
    }

    /// Get 1-indexed line number for display
    pub fn display_line(&self) -> (r: usize)
        requires
            self.line < usize::MAX,
        ensures
            r == self.line + 1,
    {
        self.line + 1
    }

    /// Get 1-indexed column for display
    pub fn display_column(&self) -> (r: usize)
        requires
            self.column < usize::MAX,
        ensures
            r == self.column + 1,
    {
        self.column + 1
    }

    /// Status text such as `Ln 6, Col 11` (both numbers 1-indexed).
    pub fn to_string(&self) -> (r: String)
        requires
            self.line < usize::MAX,
            self.column < usize::MAX,
        ensures
            r@ == "Ln "@ + decimal((self.line + 1) as nat) + ", Col "@ + decimal((self.column + 1) as nat),
    {
        let line = usize_to_string(self.display_line());
        let col = usize_to_string(self.display_column());
        let r = String::from_str("Ln ").concat(line.as_str()).concat(", Col ").concat(col.as_str());
        r
    }
}

impl Default for CursorPosition {
    fn default() -> (r: Self)
        ensures
            r.line == 0,
            r.column == 0,
    {
        CursorPosition { line: 0, column: 0 }
    }
}

/// Text selection range: `start` is the anchor, `end` follows the cursor.
#[derive(Debug, Clone, Copy, PartialEq, Eq, Structural)]
pub struct Selection {
    /// Start of selection (anchor point)
    pub start: CursorPosition,
    /// End of selection (active point, where cursor moves)
    pub end: CursorPosition,
}

impl Selection {
    /// The two ends in document order.
    pub open spec fn ordered(self) -> (CursorPosition, CursorPosition) {
        if precedes(self.start, self.end) {
            (self.start, self.end)
        } else {
            (self.end, self.start)
        }
    }

    /// Create a new selection
    pub fn new(start: CursorPosition, end: CursorPosition) -> (r: Self)
        ensures
            r.start == start,
            r.end == end,
    {
        Selection { start, end }
    }

    /// Create a collapsed selection (cursor with no selection)
    pub fn collapsed(position: CursorPosition) -> (r: Self)
        ensures
            r.start == position,
            r.end == position,
    {
        Selection { start: position, end: position }
    }

    /// Check if selection is collapsed (no text selected)
    pub fn is_collapsed(&self) -> (r: bool)
        ensures
            r == (self.start == self.end),
    {
        self.start == self.end
    }

    /// Get the selection in normalized order (start before end)
    pub fn normalized(&self) -> (r: (CursorPosition, CursorPosition))
        ensures
            r == self.ordered(),
    {
        if self.start.line < self.end.line || (self.start.line == self.end.line
            && self.start.column <= self.end.column) {
            (self.start, self.end)
        } else {
            (self.end, self.start)
        }
    }

    /// Get the start position (earlier in document)
    pub fn start_position(&self) -> (r: CursorPosition)
        ensures
            r == self.ordered().0,
    {
        self.normalized().0
    }

    /// Get the end position (later in document)
    pub fn end_position(&self) -> (r: CursorPosition)
        ensures
            r == self.ordered().1,
    {
        self.normalized().1
    }

    /// Check if a position is within the selection (both ends included)
    pub fn contains(&self, pos: CursorPosition) -> (r: bool)
        ensures
            r == (precedes(self.ordered().0, pos) && precedes(pos, self.ordered().1)),
    {
        let (start, end) = self.normalized();
        if pos.line < start.line || pos.line > end.line {
            return false;
        }
        if pos.line == start.line && pos.column < start.column {
            return false;
        }
        if pos.line == end.line && pos.column > end.column {
            return false;
        }
        true
    }
}

/// Normalizing a selection orders its two ends by document position,
/// whichever of them was given as the anchor.
pub proof fn lemma_normalized_order_independent(a: CursorPosition, b: CursorPosition)
    ensures
        (Selection { start: a, end: b }).ordered() == (if precedes(a, b) { (a, b) } else { (b, a) }),
        (Selection { start: b, end: a }).ordered() == (if precedes(a, b) { (a, b) } else { (b, a) }),
{
}

impl Default for Selection {
    fn default() -> (r: Self)
        ensures
            r.start == CursorPosition::start_spec(),
            r.end == CursorPosition::start_spec(),
    {
        Selection::collapsed(CursorPosition::start())
    }
}

impl CursorPosition {
    /// The start of the document.
    pub open spec fn start_spec() -> CursorPosition {
        CursorPosition { line: 0, column: 0 }
    }
}

/// Type of edit operation
#[derive(Debug, Clone)]
pub enum EditKind {
    /// Text was inserted
    Insert,
    /// Text was deleted
    Delete,
    /// Text was replaced
    Replace { old_text: String, new_text: String },
}

/// What an edit kind holds, with its texts as character sequences.
pub enum EditRecordKind {
    Insert,
    Delete,
    Replace { old_text: Seq<char>, new_text: Seq<char> },
}

/// What an edit operation holds, with its texts as character sequences.
pub struct EditRecord {
    pub kind: EditRecordKind,
    pub position: CursorPosition,
    pub text: Seq<char>,
    pub selection_before: Selection,
    pub cursor_after: CursorPosition,
    pub timestamp: u64,
}

/// A single edit operation for undo/redo
#[derive(Debug, Clone)]
pub struct EditOperation {
    /// Type of edit
    pub kind: EditKind,
    /// Position where edit occurred
    pub position: CursorPosition,
    /// Text involved (inserted or deleted)
    pub text: String,
    /// Selection before the edit (for restoration)
    pub selection_before: Selection,
    /// Cursor position after the edit
    pub cursor_after: CursorPosition,
    /// Time of the edit, in milliseconds
    pub timestamp: u64,
}

impl View for EditKind {
    type V = EditRecordKind;

    open spec fn view(&self) -> EditRecordKind {
        match self {
            EditKind::Insert => EditRecordKind::Insert,
            EditKind::Delete => EditRecordKind::Delete,
            EditKind::Replace { old_text, new_text } => EditRecordKind::Replace {
                old_text: old_text@,
                new_text: new_text@,
            },
        }
    }
}

impl View for EditOperation {
    type V = EditRecord;

    open spec fn view(&self) -> EditRecord {
        EditRecord {
            kind: self.kind@,
            position: self.position,
            text: self.text@,
            selection_before: self.selection_before,
            cursor_after: self.cursor_after,
            timestamp: self.timestamp,
        }
    }
}

/// Milliseconds from `earlier` to `later`, zero when `later` is not after it.
pub open spec fn gap(earlier: u64, later: u64) -> int {
    if later >= earlier {
        later - earlier
    } else {
        0
    }
}

/// Whether a later insertion `b` continues the insertion `a` as one undo step.
pub open spec fn insert_mergeable(a: EditRecord, b: EditRecord) -> bool {
    &&& a.kind is Insert
    &&& b.kind is Insert
    &&& gap(a.timestamp, b.timestamp) <= MERGE_WINDOW_MS
    &&& b.position == a.cursor_after
    &&& b.text != seq!['\n']
    &&& !(b.text == seq![' '] && !(a.text.len() > 0 && a.text.last() == ' '))
}

/// The insertion `a` extended by the insertion `b`.
pub open spec fn merged_insert(a: EditRecord, b: EditRecord) -> EditRecord {
    EditRecord { text: a.text + b.text, cursor_after: b.cursor_after, timestamp: b.timestamp, ..a }
}

/// The records of a stack of operations.
pub open spec fn records(s: Seq<EditOperation>) -> Seq<EditRecord> {
    s.map_values(|o: EditOperation| o@)
}

/// The last `max` entries of `s` (all of it when it is not longer).
pub open spec fn keep_newest<T>(s: Seq<T>, max: nat) -> Seq<T> {
    if s.len() > max {
        s.subrange(s.len() - max, s.len() as int)
    } else {
        s
    }
}

/// Stepping one past `i` modulo `len` wraps from the last index to zero.
pub proof fn lemma_wrap_next(i: int, len: int)
    requires
        i >= 0,
        len > 0,
    ensures
        0 <= i % len < len,
        (i + 1) % len == (if i % len + 1 == len { 0 } else { i % len + 1 }),
{
    let q = i / len;
    let r = i % len;
    vstd::arithmetic::div_mod::lemma_fundamental_div_mod(i, len);
    vstd::arithmetic::div_mod::lemma_mod_pos_bound(i, len);
    if r + 1 == len {
        assert(i + 1 == (q + 1) * len) by (nonlinear_arith)
            requires
                i == len * q + r,
                r + 1 == len,
        ;
        vstd::arithmetic::div_mod::lemma_mod_multiples_basic(q + 1, len);
    } else {
        vstd::arithmetic::div_mod::lemma_mod_multiples_vanish(q, r + 1, len);
        vstd::arithmetic::div_mod::lemma_small_mod((r + 1) as nat, len as nat);
    }
}

/// Whether `s` is exactly one character `c`.
pub(crate) fn is_single_char(s: &String, c: char) -> (r: bool)
    ensures
        r == (s@ == seq![c]),
{
    let n = s.as_str().unicode_len();
    if n != 1 {
        proof {
            if s@ == seq![c] {
                assert(s@.len() == 1);
            }
        }
        return false;
    }
    let r = s.as_str().get_char(0) == c;
    proof {
        if r {
            assert(s@ =~= seq![c]);
        }
    }
    r
}

/// Whether `s` ends with the character `c`.
pub(crate) fn ends_with_char(s: &String, c: char) -> (r: bool)
    ensures
        r == (s@.len() > 0 && s@.last() == c),
{
    let n = s.as_str().unicode_len();
    if n == 0 {
        return false;
    }
    s.as_str().get_char(n - 1) == c
}

/// Copy of a string with the same contents.
pub(crate) fn copy_string(s: &String) -> (r: String)
    ensures
        r@ == s@,
{
    s.clone()
}

impl EditOperation {
    /// Create a new insert operation stamped with `timestamp` (milliseconds)
    pub fn insert_at_time(
        position: CursorPosition,
        text: String,
        selection_before: Selection,
        cursor_after: CursorPosition,
        timestamp: u64,
    ) -> (r: Self)
        ensures
            r.timestamp == timestamp,
            r.kind is Insert,
            r.position == position,
            r.text@ == text@,
            r.selection_before == selection_before,
            r.cursor_after == cursor_after,
    {
        EditOperation {
            kind: EditKind::Insert,
            position,
            text,
            selection_before,
            cursor_after,
            timestamp,
        }
    }

    /// Create a new insert operation, stamped with the current time
    pub fn insert(
        position: CursorPosition,
        text: String,
        selection_before: Selection,
        cursor_after: CursorPosition,
    ) -> (r: Self)
        ensures
            r.kind is Insert,
            r.position == position,
            r.text@ == text@,
            r.selection_before == selection_before,
            r.cursor_after == cursor_after,
    {
        Self::insert_at_time(position, text, selection_before, cursor_after, now_millis())
    }

    /// Create a new delete operation stamped with `timestamp` (milliseconds)
    pub fn delete_at_time(
        position: CursorPosition,
        text: String,
        selection_before: Selection,
        cursor_after: CursorPosition,
        timestamp: u64,
    ) -> (r: Self)
        ensures
            r.timestamp == timestamp,
            r.kind is Delete,
            r.position == position,
            r.text@ == text@,
            r.selection_before == selection_before,
            r.cursor_after == cursor_after,
    {
        EditOperation {
            kind: EditKind::Delete,
            position,
            text,
            selection_before,
            cursor_after,
            timestamp,
        }
    }

    /// Create a new delete operation, stamped with the current time
    pub fn delete(
        position: CursorPosition,
        text: String,
        selection_before: Selection,
        cursor_after: CursorPosition,
    ) -> (r: Self)
        ensures
            r.kind is Delete,
            r.position == position,
            r.text@ == text@,
            r.selection_before == selection_before,
            r.cursor_after == cursor_after,
    {
        Self::delete_at_time(position, text, selection_before, cursor_after, now_millis())
    }

    /// Create a new replace operation stamped with `timestamp` (milliseconds)
    pub fn replace_at_time(
        position: CursorPosition,
        old_text: String,
        new_text: String,
        selection_before: Selection,
        cursor_after: CursorPosition,
        timestamp: u64,
    ) -> (r: Self)
        ensures
            r.timestamp == timestamp,
            r.kind@ == (EditRecordKind::Replace { old_text: old_text@, new_text: new_text@ }),
            r.position == position,
            r.text@ == new_text@,
            r.selection_before == selection_before,
            r.cursor_after == cursor_after,
    {
        let text = copy_string(&new_text);
        EditOperation {
            kind: EditKind::Replace { old_text, new_text },
            position,
            text,
            selection_before,
            cursor_after,
            timestamp,
        }
    }

    /// Create a new replace operation, stamped with the current time
    pub fn replace(
        position: CursorPosition,
        old_text: String,
        new_text: String,
        selection_before: Selection,
        cursor_after: CursorPosition,
    ) -> (r: Self)
        ensures
            r.kind@ == (EditRecordKind::Replace { old_text: old_text@, new_text: new_text@ }),
            r.position == position,
            r.text@ == new_text@,
            r.selection_before == selection_before,
            r.cursor_after == cursor_after,
    {
        Self::replace_at_time(position, old_text, new_text, selection_before, cursor_after, now_millis())
    }

    /// Check if this edit can be merged with a later one
    /// (for grouping consecutive character insertions)
    pub fn can_merge_with(&self, other: &EditOperation) -> (r: bool)
        ensures
            r == insert_mergeable(self@, other@),
    {
        if !matches!(self.kind, EditKind::Insert) || !matches!(other.kind, EditKind::Insert) {
            return false;
        }
        let elapsed = if other.timestamp >= self.timestamp {
            other.timestamp - self.timestamp
        } else {
            0
        };
        if elapsed > MERGE_WINDOW_MS {
            return false;
        }
        if other.position.line != self.cursor_after.line || other.position.column
            != self.cursor_after.column {
            return false;
        }
        if is_single_char(&other.text, '\n') || (is_single_char(&other.text, ' ')
            && !ends_with_char(&self.text, ' ')) {
            return false;
        }
        true
    }

    /// A copy of this operation with the same contents.
    pub fn duplicate(&self) -> (r: Self)
        ensures
            r@ == self@,
    {
        let kind = match &self.kind {
            EditKind::Insert => EditKind::Insert,
            EditKind::Delete => EditKind::Delete,
            EditKind::Replace { old_text, new_text } => EditKind::Replace {
                old_text: copy_string(old_text),
                new_text: copy_string(new_text),
            },
        };
        EditOperation {
            kind,
            position: self.position,
            text: copy_string(&self.text),
            selection_before: self.selection_before,
            cursor_after: self.cursor_after,
            timestamp: self.timestamp,
        }
    }
}

/// Editor state for a single document
#[derive(Debug, Clone)]
pub struct EditorState {
    /// Current cursor position
    pub cursor: CursorPosition,
    /// Current selection
    pub selection: Selection,
    /// Scroll offset (line at top of viewport)
    pub scroll_line: usize,
    /// Horizontal scroll offset (character offset)
    pub scroll_column: usize,
    /// Undo history stack
    pub undo_stack: Vec<EditOperation>,
    /// Redo history stack
    pub redo_stack: Vec<EditOperation>,
    /// Maximum undo history size
    pub max_undo_history: usize,
    /// Preferred column for vertical cursor movement
    pub preferred_column: Option<usize>,
    /// Find results for this document (character offsets)
    pub find_results: Vec<(usize, usize)>,
    /// Current find result index
    pub current_find_index: Option<usize>,
    /// Whether the editor has focus
    pub has_focus: bool,
}

impl EditorState {
    /// A fresh state: cursor and collapsed selection at the start, no
    /// history, no find results.
    pub open spec fn is_fresh(self) -> bool {
        &&& self.cursor == CursorPosition::start_spec()
        &&& self.selection == Selection::default_spec()
        &&& self.scroll_line == 0
        &&& self.scroll_column == 0
        &&& self.undo_stack@.len() == 0
        &&& self.redo_stack@.len() == 0
        &&& self.max_undo_history == MAX_UNDO_HISTORY
        &&& self.preferred_column is None
        &&& self.find_results@.len() == 0
        &&& self.current_find_index is None
        &&& !self.has_focus
    }

    /// Create a new editor state
    pub fn new() -> (r: Self)
        ensures
            r.is_fresh(),
    {
        EditorState {
            cursor: CursorPosition::start(),
            selection: Selection::collapsed(CursorPosition::start()),
            scroll_line: 0,
            scroll_column: 0,
            undo_stack: Vec::new(),
            redo_stack: Vec::new(),
            max_undo_history: MAX_UNDO_HISTORY,
            preferred_column: None,
            find_results: Vec::new(),
            current_find_index: None,
            has_focus: false,
        }
    }

    /// Set cursor position and collapse selection
    pub fn set_cursor(&mut self, position: CursorPosition)
        ensures
            *final(self) == (EditorState {
                cursor: position,
                selection: Selection { start: position, end: position },
                preferred_column: None,
                ..*old(self)
            }),
    {
        self.cursor = position;
        self.selection = Selection::collapsed(position);
        self.preferred_column = None;
    }

    /// Set cursor position and move the selection's active end with it
    pub fn extend_selection_to(&mut self, position: CursorPosition)
        ensures
            *final(self) == (EditorState {
                cursor: position,
                selection: Selection { start: old(self).selection.start, end: position },
                preferred_column: None,
                ..*old(self)
            }),
    {
        self.cursor = position;
        self.selection.end = position;
        self.preferred_column = None;
    }

    /// Set the selection directly; the cursor goes to its active end
    pub fn set_selection(&mut self, selection: Selection)
        ensures
            *final(self) == (EditorState {
                cursor: selection.end,
                selection: selection,
                preferred_column: None,
                ..*old(self)
            }),
    {
        self.selection = selection;
        self.cursor = selection.end;
        self.preferred_column = None;
    }

    /// Select from the document start to `end_position`
    pub fn select_all(&mut self, end_position: CursorPosition)
        ensures
            *final(self) == (EditorState {
                cursor: end_position,
                selection: Selection { start: CursorPosition::start_spec(), end: end_position },
                ..*old(self)
            }),
    {
        self.selection = Selection::new(CursorPosition::start(), end_position);
        self.cursor = end_position;
    }

    /// Push an edit to the undo stack, merging consecutive insertions
    pub fn push_undo(&mut self, operation: EditOperation)
        ensures
            ({
                let old_undo = records(old(self).undo_stack@);
                let merge = old_undo.len() > 0 && insert_mergeable(old_undo.last(), operation@);
                &&& merge ==> records(final(self).undo_stack@) == old_undo.update(
                    old_undo.len() - 1,
                    merged_insert(old_undo.last(), operation@),
                )
                &&& merge ==> final(self).redo_stack@ == old(self).redo_stack@
                &&& !merge ==> records(final(self).undo_stack@) == keep_newest(
                    old_undo.push(operation@),
                    old(self).max_undo_history as nat,
                )
                &&& !merge ==> final(self).redo_stack@.len() == 0
            }),
            final(self).max_undo_history == old(self).max_undo_history,
            final(self).cursor == old(self).cursor,
            final(self).selection == old(self).selection,
            final(self).find_results == old(self).find_results,
            final(self).current_find_index == old(self).current_find_index,
    {
        let n = self.undo_stack.len();
        if n > 0 && self.undo_stack[n - 1].can_merge_with(&operation) {
            let ghost old_undo = records(self.undo_stack@);
            let mut last = self.undo_stack.pop().unwrap();
            last.text.append(operation.text.as_str());
            last.cursor_after = operation.cursor_after;
            last.timestamp = operation.timestamp;
            self.undo_stack.push(last);
            proof {
                assert(records(self.undo_stack@) =~= old_undo.update(
                    old_undo.len() - 1,
                    merged_insert(old_undo.last(), operation@),
                ));
            }
            return;
        }
        self.undo_stack.push(operation);
        let ghost full = records(self.undo_stack@);
        let max = self.max_undo_history;
        while self.undo_stack.len() > max
            invariant
                max == self.max_undo_history,
                self.cursor == old(self).cursor,
                self.selection == old(self).selection,
                self.find_results == old(self).find_results,
                self.current_find_index == old(self).current_find_index,
                self.undo_stack@.len() <= full.len(),
                full.len() > max ==> self.undo_stack@.len() >= max,
                full.len() <= max ==> self.undo_stack@.len() == full.len(),
                records(self.undo_stack@) == full.subrange(
                    full.len() - self.undo_stack@.len(),
                    full.len() as int,
                ),
            decreases self.undo_stack@.len(),
        {
            let ghost before = records(self.undo_stack@);
            self.undo_stack.remove(0);
            proof {
                assert(records(self.undo_stack@) =~= before.subrange(1, before.len() as int));
            }
        }
        proof {
            assert(records(self.undo_stack@) =~= keep_newest(full, max as nat));
        }
        self.redo_stack.clear();
    }

    /// Pop from undo stack and push to redo
    pub fn pop_undo(&mut self) -> (r: Option<EditOperation>)
        ensures
            old(self).undo_stack@.len() == 0 ==> r is None && *final(self) == *old(self),
            old(self).undo_stack@.len() > 0 ==> {
                &&& r matches Some(op) && op@ == old(self).undo_stack@.last()@
                &&& final(self).undo_stack@ == old(self).undo_stack@.drop_last()
                &&& records(final(self).redo_stack@) == records(old(self).redo_stack@).push(
                    old(self).undo_stack@.last()@,
                )
            },
            final(self).max_undo_history == old(self).max_undo_history,
    {
        if self.undo_stack.is_empty() {
            return None;
        }
        let op = self.undo_stack.pop().unwrap();
        self.redo_stack.push(op.duplicate());
        proof {
            assert(records(self.redo_stack@) =~= records(old(self).redo_stack@).push(op@));
        }
        Some(op)
    }

    /// Pop from redo stack and push to undo
    pub fn pop_redo(&mut self) -> (r: Option<EditOperation>)
        ensures
            old(self).redo_stack@.len() == 0 ==> r is None && *final(self) == *old(self),
            old(self).redo_stack@.len() > 0 ==> {
                &&& r matches Some(op) && op@ == old(self).redo_stack@.last()@
                &&& final(self).redo_stack@ == old(self).redo_stack@.drop_last()
                &&& records(final(self).undo_stack@) == records(old(self).undo_stack@).push(
                    old(self).redo_stack@.last()@,
                )
            },
            final(self).max_undo_history == old(self).max_undo_history,
    {
        if self.redo_stack.is_empty() {
            return None;
        }
        let op = self.redo_stack.pop().unwrap();
        self.undo_stack.push(op.duplicate());
        proof {
            assert(records(self.undo_stack@) =~= records(old(self).undo_stack@).push(op@));
        }
        Some(op)
    }

    /// Check if undo is available
    pub fn can_undo(&self) -> (r: bool)
        ensures
            r == (self.undo_stack@.len() > 0),
    {
        !self.undo_stack.is_empty()
    }

    /// Check if redo is available
    pub fn can_redo(&self) -> (r: bool)
        ensures
            r == (self.redo_stack@.len() > 0),
    {
        !self.redo_stack.is_empty()
    }

    /// Clear undo/redo history
    pub fn clear_history(&mut self)
        ensures
            final(self).undo_stack@.len() == 0,
            final(self).redo_stack@.len() == 0,
            final(self).cursor == old(self).cursor,
            final(self).selection == old(self).selection,
            final(self).max_undo_history == old(self).max_undo_history,
            final(self).find_results == old(self).find_results,
            final(self).current_find_index == old(self).current_find_index,
    {
        self.undo_stack.clear();
        self.redo_stack.clear();
    }

    /// Clear find results
    pub fn clear_find_results(&mut self)
        ensures
            final(self).find_results@.len() == 0,
            final(self).current_find_index is None,
            final(self).cursor == old(self).cursor,
            final(self).selection == old(self).selection,
            final(self).undo_stack == old(self).undo_stack,
            final(self).redo_stack == old(self).redo_stack,
    {
        self.find_results.clear();
        self.current_find_index = None;
    }

    /// Move to next find result, wrapping after the last
    pub fn next_find_result(&mut self) -> (r: Option<(usize, usize)>)
        ensures
            old(self).find_results@.len() == 0 ==> r is None && *final(self) == *old(self),
            old(self).find_results@.len() > 0 ==> {
                let len = old(self).find_results@.len();
                let next = match old(self).current_find_index {
                    Some(i) => (i + 1) % (len as int),
                    None => 0,
                };
                &&& final(self).current_find_index == Some(next as usize)
                &&& r == Some(old(self).find_results@[next])
            },
            final(self).find_results == old(self).find_results,
            final(self).cursor == old(self).cursor,
            final(self).selection == old(self).selection,
    {
        let len = self.find_results.len();
        if len == 0 {
            return None;
        }
        let next = match self.current_find_index {
            Some(i) => {
                let k = i % len;
                proof {
                    lemma_wrap_next(i as int, len as int);
                }
                if k + 1 == len {
                    0
                } else {
                    k + 1
                }
            },
            None => 0,
        };
        self.current_find_index = Some(next);
        Some(self.find_results[next])
    }

    /// Move to previous find result, wrapping before the first
    pub fn prev_find_result(&mut self) -> (r: Option<(usize, usize)>)
        ensures
            old(self).find_results@.len() == 0 ==> r is None && *final(self) == *old(self),
            old(self).find_results@.len() > 0 ==> {
                let len = old(self).find_results@.len();
                let prev: int = match old(self).current_find_index {
                    Some(i) => if i == 0 { len - 1 } else { i - 1 },
                    None => len - 1,
                };
                &&& final(self).current_find_index == Some(prev as usize)
                &&& r == (if prev < len { Some(old(self).find_results@[prev]) } else { None })
            },
            final(self).find_results == old(self).find_results,
            final(self).cursor == old(self).cursor,
            final(self).selection == old(self).selection,
    {
        let len = self.find_results.len();
        if len == 0 {
            return None;
        }
        let prev = match self.current_find_index {
            Some(i) => {
                if i == 0 {
                    len - 1
                } else {
                    i - 1
                }
            },
            None => len - 1,
        };
        self.current_find_index = Some(prev);
        if prev < len {
            Some(self.find_results[prev])
        } else {
            None
        }
    }

    /// Get find result count
    pub fn find_result_count(&self) -> (r: usize)
        ensures
            r == self.find_results@.len(),
    {
        self.find_results.len()
    }

    /// Get current find result number (1-indexed)
    pub fn current_find_number(&self) -> (r: Option<usize>)
        requires
            self.current_find_index matches Some(i) ==> i < usize::MAX,
        ensures
            r == (match self.current_find_index {
                Some(i) => Some((i + 1) as usize),
                None => None,
            }),
    {
        match self.current_find_index {
            Some(i) => Some(i + 1),
            None => None,
        }
    }
}

impl Selection {
    /// The collapsed selection at the document start.
    pub open spec fn default_spec() -> Selection {
        Selection { start: CursorPosition::start_spec(), end: CursorPosition::start_spec() }
    }
}

impl Default for EditorState {
    fn default() -> (r: Self)
        ensures
            r.is_fresh(),
    {
        EditorState::new()
    }
}

} // verus!
