//! Undo/redo history: reversible edit records and a bounded two-stack
//! manager that merges consecutive compatible edits into one step.

use vstd::prelude::*;
use crate::state::editor_state::{
    copy_string, ends_with_char, gap, is_single_char, keep_newest, CursorPosition, Selection,
    MERGE_WINDOW_MS,
};
use crate::utils::now_millis;

verus! {

/// Types of edit operations
#[derive(Debug, Clone)]
pub enum EditKind {
    /// Text was inserted
    Insert,
    /// Text was deleted
    Delete,
    /// Text was replaced (used for paste over selection, etc.)
    Replace {
        /// The original text that was replaced
        old_text: String,
    },
}

/// What an edit kind holds, its text as a character sequence.
pub enum OpKind {
    Insert,
    Delete,
    Replace { old_text: Seq<char> },
}

/// What an edit operation holds, its texts as character sequences.
pub struct OpRecord {
    pub kind: OpKind,
    pub position: usize,
    pub text: Seq<char>,
    pub cursor_before: CursorPosition,
    pub selection_before: Selection,
    pub cursor_after: CursorPosition,
    pub timestamp: u64,
}

/// A single edit operation that can be undone/redone
#[derive(Debug, Clone)]
pub struct EditOperation {
    /// Type of edit
    pub kind: EditKind,
    /// Position where edit occurred (character index)
    pub position: usize,
    /// Text involved in the operation
    pub text: String,
    /// Cursor position before the edit
    pub cursor_before: CursorPosition,
    /// Selection before the edit
    pub selection_before: Selection,
    /// Cursor position after the edit
    pub cursor_after: CursorPosition,
    /// When the operation was performed, in milliseconds
    pub timestamp: u64,
}

impl View for EditKind {
    type V = OpKind;

    open spec fn view(&self) -> OpKind {
        match self {
            EditKind::Insert => OpKind::Insert,
            EditKind::Delete => OpKind::Delete,
            EditKind::Replace { old_text } => OpKind::Replace { old_text: old_text@ },
        }
    }
}

impl View for EditOperation {
    type V = OpRecord;

    open spec fn view(&self) -> OpRecord {
        OpRecord {
            kind: self.kind@,
            position: self.position,
            text: self.text@,
            cursor_before: self.cursor_before,
            selection_before: self.selection_before,
            cursor_after: self.cursor_after,
            timestamp: self.timestamp,
        }
    }
}

/// `t` holds a line break.
pub open spec fn has_newline(t: Seq<char>) -> bool {
    exists|i: int| 0 <= i < t.len() && #[trigger] t[i] == '\n'
}

/// Whether `b`, pushed after `a`, joins `a` as one undo step.
///
/// Two insertions join when `b` starts where `a` ended, within the merge
/// window, unless `b` is a lone newline or a space typed after a space.
/// Two deletions join within the window when `b` ends where `a` started
/// (backspace) or starts where `a` started (forward delete), and neither
/// holds a newline. No other pair joins.
pub open spec fn mergeable(a: OpRecord, b: OpRecord) -> bool {
    match (a.kind, b.kind) {
        (OpKind::Insert, OpKind::Insert) => {
            &&& gap(a.timestamp, b.timestamp) <= MERGE_WINDOW_MS
            &&& b.position == a.position + a.text.len()
            &&& b.text != seq!['\n']
            &&& !(b.text == seq![' '] && a.text.len() > 0 && a.text.last() == ' ')
        },
        (OpKind::Delete, OpKind::Delete) => {
            &&& gap(a.timestamp, b.timestamp) <= MERGE_WINDOW_MS
            &&& (b.position + b.text.len() == a.position || b.position == a.position)
            &&& !has_newline(b.text)
            &&& !has_newline(a.text)
        },
        _ => false,
    }
}

/// `a` with `b` folded into it.
pub open spec fn merged(a: OpRecord, b: OpRecord) -> OpRecord {
    match (a.kind, b.kind) {
        (OpKind::Insert, OpKind::Insert) => OpRecord {
            text: a.text + b.text,
            cursor_after: b.cursor_after,
            timestamp: b.timestamp,
            ..a
        },
        (OpKind::Delete, OpKind::Delete) => if b.position < a.position {
            OpRecord {
                text: b.text + a.text,
                position: b.position,
                cursor_after: b.cursor_after,
                timestamp: b.timestamp,
                ..a
            }
        } else {
            OpRecord {
                text: a.text + b.text,
                cursor_after: b.cursor_after,
                timestamp: b.timestamp,
                ..a
            }
        },
        _ => a,
    }
}

/// Whether `s` holds a newline.
fn contains_newline(s: &String) -> (r: bool)
    ensures
        r == has_newline(s@),
{
    let n = s.as_str().unicode_len();
    let mut i: usize = 0;
    while i < n
        invariant
            n == s@.len(),
            i <= n,
            forall|j: int| 0 <= j < i ==> s@[j] != '\n',
        decreases n - i,
    {
        if s.as_str().get_char(i) == '\n' {
            return true;
        }
        i = i + 1;
    }
    false
}

impl EditOperation {
    /// Create a new insert operation stamped with `timestamp` (milliseconds)
    pub fn insert_at_time(
        position: usize,
        text: String,
        cursor_before: CursorPosition,
        selection_before: Selection,
        cursor_after: CursorPosition,
        timestamp: u64,
    ) -> (r: Self)
        ensures
            r.timestamp == timestamp,
            r.kind is Insert,
            r.position == position,
            r.text@ == text@,
            r.cursor_before == cursor_before,
            r.selection_before == selection_before,
            r.cursor_after == cursor_after,
    {
        EditOperation {
            kind: EditKind::Insert,
            position,
            text,
            cursor_before,
            selection_before,
            cursor_after,
            timestamp,
        }
    }

    /// Create a new insert operation, stamped with the current time
    pub fn insert(
        position: usize,
        text: String,
        cursor_before: CursorPosition,
        selection_before: Selection,
        cursor_after: CursorPosition,
    ) -> (r: Self)
        ensures
            r.kind is Insert,
            r.position == position,
            r.text@ == text@,
            r.cursor_before == cursor_before,
            r.selection_before == selection_before,
            r.cursor_after == cursor_after,
    {
        Self::insert_at_time(position, text, cursor_before, selection_before, cursor_after, now_millis())
    }

    /// Create a new delete operation stamped with `timestamp` (milliseconds)
    pub fn delete_at_time(
        position: usize,
        text: String,
        cursor_before: CursorPosition,
        selection_before: Selection,
        cursor_after: CursorPosition,
        timestamp: u64,
    ) -> (r: Self)
        ensures
            r.timestamp == timestamp,
            r.kind is Delete,
            r.position == position,
            r.text@ == text@,
            r.cursor_before == cursor_before,
            r.selection_before == selection_before,
            r.cursor_after == cursor_after,
    {
        EditOperation {
            kind: EditKind::Delete,
            position,
            text,
            cursor_before,
            selection_before,
            cursor_after,
            timestamp,
        }
    }

    /// Create a new delete operation, stamped with the current time
    pub fn delete(
        position: usize,
        text: String,
        cursor_before: CursorPosition,
        selection_before: Selection,
        cursor_after: CursorPosition,
    ) -> (r: Self)
        ensures
            r.kind is Delete,
            r.position == position,
            r.text@ == text@,
            r.cursor_before == cursor_before,
            r.selection_before == selection_before,
            r.cursor_after == cursor_after,
    {
        Self::delete_at_time(position, text, cursor_before, selection_before, cursor_after, now_millis())
    }

    /// Create a new replace operation stamped with `timestamp` (milliseconds)
    pub fn replace_at_time(
        position: usize,
        old_text: String,
        new_text: String,
        cursor_before: CursorPosition,
        selection_before: Selection,
        cursor_after: CursorPosition,
        timestamp: u64,
    ) -> (r: Self)
        ensures
            r.timestamp == timestamp,
            r.kind@ == (OpKind::Replace { old_text: old_text@ }),
            r.position == position,
            r.text@ == new_text@,
            r.cursor_before == cursor_before,
            r.selection_before == selection_before,
            r.cursor_after == cursor_after,
    {
        EditOperation {
            kind: EditKind::Replace { old_text },
            position,
            text: new_text,
            cursor_before,
            selection_before,
            cursor_after,
            timestamp,
        }
    }

    /// Create a new replace operation, stamped with the current time
    pub fn replace(
        position: usize,
        old_text: String,
        new_text: String,
        cursor_before: CursorPosition,
        selection_before: Selection,
        cursor_after: CursorPosition,
    ) -> (r: Self)
        ensures
            r.kind@ == (OpKind::Replace { old_text: old_text@ }),
            r.position == position,
            r.text@ == new_text@,
            r.cursor_before == cursor_before,
            r.selection_before == selection_before,
            r.cursor_after == cursor_after,
    {
        Self::replace_at_time(position, old_text, new_text, cursor_before, selection_before, cursor_after, now_millis())
    }

    /// Check if this operation can be merged with a subsequent operation
    pub fn can_merge_with(&self, other: &EditOperation) -> (r: bool)
        ensures
            r == mergeable(self@, other@),
    {
        let elapsed = if other.timestamp >= self.timestamp {
            other.timestamp - self.timestamp
        } else {
            0
        };
        match (&self.kind, &other.kind) {
            (EditKind::Insert, EditKind::Insert) => {
                if elapsed > MERGE_WINDOW_MS {
                    return false;
                }
                let len = self.text.as_str().unicode_len();
                if self.position as u128 + len as u128 != other.position as u128 {
                    return false;
                }
                if is_single_char(&other.text, '\n') {
                    return false;
                }
                if is_single_char(&other.text, ' ') && ends_with_char(&self.text, ' ') {
                    return false;
                }
                true
            },
            (EditKind::Delete, EditKind::Delete) => {
                if elapsed > MERGE_WINDOW_MS {
                    return false;
                }
                let len = other.text.as_str().unicode_len();
                let is_backspace = other.position as u128 + len as u128 == self.position as u128;
                let is_delete = other.position == self.position;
                if !is_backspace && !is_delete {
                    return false;
                }
                if contains_newline(&other.text) || contains_newline(&self.text) {
                    return false;
                }
                true
            },
            _ => false,
        }
    }

    /// Merge another operation into this one (no change for kinds that
    /// never merge)
    pub fn merge(&mut self, other: EditOperation)
        ensures
            final(self)@ == merged(old(self)@, other@),
    {
        let ghost a = self@;
        match (&self.kind, &other.kind) {
            (EditKind::Insert, EditKind::Insert) => {
                self.text.append(other.text.as_str());
                self.cursor_after = other.cursor_after;
                self.timestamp = other.timestamp;
            },
            (EditKind::Delete, EditKind::Delete) => {
                if other.position < self.position {
                    let joined = copy_string(&other.text).concat(self.text.as_str());
                    self.text = joined;
                    self.position = other.position;
                } else {
                    self.text.append(other.text.as_str());
                }
                self.cursor_after = other.cursor_after;
                self.timestamp = other.timestamp;
            },
            _ => {},
        }
    }

    /// A copy of this operation with the same contents.
    pub fn duplicate(&self) -> (r: Self)
        ensures
            r@ == self@,
    {
        let kind = match &self.kind {
            EditKind::Insert => EditKind::Insert,
            EditKind::Delete => EditKind::Delete,
            EditKind::Replace { old_text } => EditKind::Replace { old_text: copy_string(old_text) },
        };
        EditOperation {
            kind,
            position: self.position,
            text: copy_string(&self.text),
            cursor_before: self.cursor_before,
            selection_before: self.selection_before,
            cursor_after: self.cursor_after,
            timestamp: self.timestamp,
        }
    }
}

/// The records of a stack of operations.
pub open spec fn op_records(s: Seq<EditOperation>) -> Seq<OpRecord> {
    s.map_values(|o: EditOperation| o@)
}

/// What an undo manager holds.
///
/// Every state of the document that the history can reach carries a
/// version number, handed out fresh on each push: the state before each
/// undo entry is remembered beside it, and the state each redo entry leads
/// to beside that one, so that undo and redo return to exactly the version
/// they left.
pub struct HistoryModel {
    /// Operations that can be undone, oldest first.
    pub undo: Seq<OpRecord>,
    /// Version of the state before each undo entry.
    pub undo_versions: Seq<nat>,
    /// Operations that can be redone, the next to redo last.
    pub redo: Seq<OpRecord>,
    /// Version of the state each redo entry leads to.
    pub redo_versions: Seq<nat>,
    pub max_history: nat,
    pub saved_version: nat,
    pub current_version: nat,
    /// The largest version handed out so far.
    pub last_version: nat,
}

/// The undo stack after pushing `op`: merged into the top when they join,
/// pushed otherwise, then cut to the newest `max` entries.
pub open spec fn pushed_undo(undo: Seq<OpRecord>, op: OpRecord, max: nat) -> Seq<OpRecord> {
    keep_newest(
        if undo.len() > 0 && mergeable(undo.last(), op) {
            undo.update(undo.len() - 1, merged(undo.last(), op))
        } else {
            undo.push(op)
        },
        max,
    )
}

/// The history after pushing `op`: the new state gets a fresh version.
pub open spec fn after_push(h: HistoryModel, op: OpRecord) -> HistoryModel {
    let merge = h.undo.len() > 0 && mergeable(h.undo.last(), op);
    HistoryModel {
        undo: pushed_undo(h.undo, op, h.max_history),
        undo_versions: keep_newest(
            if merge {
                h.undo_versions
            } else {
                h.undo_versions.push(h.current_version)
            },
            h.max_history,
        ),
        redo: Seq::empty(),
        redo_versions: Seq::empty(),
        current_version: h.last_version + 1,
        last_version: h.last_version + 1,
        ..h
    }
}

/// The history after an undo (unchanged when there is nothing to undo):
/// the version goes back to that of the state before the undone entry.
pub open spec fn after_undo(h: HistoryModel) -> HistoryModel {
    if h.undo.len() == 0 {
        h
    } else {
        HistoryModel {
            undo: h.undo.drop_last(),
            undo_versions: h.undo_versions.drop_last(),
            redo: h.redo.push(h.undo.last()),
            redo_versions: h.redo_versions.push(h.current_version),
            current_version: h.undo_versions.last(),
            ..h
        }
    }
}

/// The history after a redo (unchanged when there is nothing to redo):
/// the version goes forward to that of the state the entry leads to.
pub open spec fn after_redo(h: HistoryModel) -> HistoryModel {
    if h.redo.len() == 0 {
        h
    } else {
        HistoryModel {
            undo: h.undo.push(h.redo.last()),
            undo_versions: h.undo_versions.push(h.current_version),
            redo: h.redo.drop_last(),
            redo_versions: h.redo_versions.drop_last(),
            current_version: h.redo_versions.last(),
            ..h
        }
    }
}

/// The history after marking the current state as saved.
pub open spec fn after_mark_saved(h: HistoryModel) -> HistoryModel {
    HistoryModel { saved_version: h.current_version, ..h }
}

/// Whether the history stands at the saved state.
pub open spec fn at_saved(h: HistoryModel) -> bool {
    h.saved_version == h.current_version
}

/// A version beside each entry, and no version above the last handed out.
pub open spec fn history_ok(h: HistoryModel) -> bool {
    &&& h.undo_versions.len() == h.undo.len()
    &&& h.redo_versions.len() == h.redo.len()
    &&& h.current_version <= h.last_version
    &&& forall|i: int| 0 <= i < h.undo_versions.len() ==> #[trigger] h.undo_versions[i] <= h.last_version
    &&& forall|i: int| 0 <= i < h.redo_versions.len() ==> #[trigger] h.redo_versions[i] <= h.last_version
}

/// Versions of a stack as numbers.
pub open spec fn versions(v: Seq<usize>) -> Seq<nat> {
    v.map_values(|x: usize| x as nat)
}

proof fn lemma_keep_newest_bounded(s: Seq<nat>, m: nat, b: nat)
    requires
        forall|i: int| 0 <= i < s.len() ==> #[trigger] s[i] <= b,
    ensures
        forall|i: int| 0 <= i < keep_newest(s, m).len() ==> #[trigger] keep_newest(s, m)[i] <= b,
        keep_newest(s, m).len() <= s.len(),
{
    if s.len() > m {
        assert forall|i: int| 0 <= i < keep_newest(s, m).len() implies #[trigger] keep_newest(s, m)[i] <= b by {
            assert(keep_newest(s, m)[i] == s[s.len() - m + i]);
        }
    }
}

proof fn lemma_push_ok(h: HistoryModel, op: OpRecord)
    requires
        history_ok(h),
    ensures
        history_ok(after_push(h, op)),
{
    let merge = h.undo.len() > 0 && mergeable(h.undo.last(), op);
    let uv = if merge { h.undo_versions } else { h.undo_versions.push(h.current_version) };
    let b = h.last_version + 1;
    assert forall|i: int| 0 <= i < uv.len() implies #[trigger] uv[i] <= b by {
        if i < h.undo_versions.len() {
            assert(uv[i] == h.undo_versions[i]);
        }
    }
    lemma_keep_newest_bounded(uv, h.max_history, b);
}

proof fn lemma_undo_ok(h: HistoryModel)
    requires
        history_ok(h),
    ensures
        history_ok(after_undo(h)),
{
    if h.undo.len() > 0 {
        let g = after_undo(h);
        assert(h.undo_versions[h.undo_versions.len() - 1] <= h.last_version);
        assert forall|i: int| 0 <= i < g.undo_versions.len() implies #[trigger] g.undo_versions[i] <= g.last_version by {
            assert(g.undo_versions[i] == h.undo_versions[i]);
        }
        assert forall|i: int| 0 <= i < g.redo_versions.len() implies #[trigger] g.redo_versions[i] <= g.last_version by {
            if i < h.redo_versions.len() {
                assert(g.redo_versions[i] == h.redo_versions[i]);
            }
        }
    }
}

proof fn lemma_redo_ok(h: HistoryModel)
    requires
        history_ok(h),
    ensures
        history_ok(after_redo(h)),
{
    if h.redo.len() > 0 {
        let g = after_redo(h);
        assert(h.redo_versions[h.redo_versions.len() - 1] <= h.last_version);
        assert forall|i: int| 0 <= i < g.redo_versions.len() implies #[trigger] g.redo_versions[i] <= g.last_version by {
            assert(g.redo_versions[i] == h.redo_versions[i]);
        }
        assert forall|i: int| 0 <= i < g.undo_versions.len() implies #[trigger] g.undo_versions[i] <= g.last_version by {
            if i < h.undo_versions.len() {
                assert(g.undo_versions[i] == h.undo_versions[i]);
            }
        }
    }
}

/// Approximate memory of a stack: its characters plus 128 per operation.
pub open spec fn stack_usage(s: Seq<OpRecord>) -> int
    decreases s.len(),
{
    if s.len() == 0 {
        0
    } else {
        stack_usage(s.drop_last()) + s.last().text.len() + 128
    }
}

/// Manages undo and redo stacks for a document
#[derive(Debug, Clone)]
pub struct UndoManager {
    undo_stack: Vec<EditOperation>,
    undo_versions: Vec<usize>,
    redo_stack: Vec<EditOperation>,
    redo_versions: Vec<usize>,
    max_history: usize,
    saved_version: usize,
    current_version: usize,
    last_version: usize,
}

impl View for UndoManager {
    type V = HistoryModel;

    closed spec fn view(&self) -> HistoryModel {
        HistoryModel {
            undo: op_records(self.undo_stack@),
            undo_versions: versions(self.undo_versions@),
            redo: op_records(self.redo_stack@),
            redo_versions: versions(self.redo_versions@),
            max_history: self.max_history as nat,
            saved_version: self.saved_version as nat,
            current_version: self.current_version as nat,
            last_version: self.last_version as nat,
        }
    }
}

/// A fresh history keeping at most `max` entries.
pub open spec fn empty_history(max: nat) -> HistoryModel {
    HistoryModel {
        undo: Seq::empty(),
        undo_versions: Seq::empty(),
        redo: Seq::empty(),
        redo_versions: Seq::empty(),
        max_history: max,
        saved_version: 0,
        current_version: 0,
        last_version: 0,
    }
}

impl UndoManager {
    /// Each entry has its version, and a fresh version is still available.
    pub closed spec fn can_step(&self) -> bool {
        self.inv() && self.last_version < usize::MAX
    }

    /// Each entry has its version.
    pub closed spec fn inv(&self) -> bool {
        history_ok(self@)
    }

    /// Create a new undo manager with specified max history
    pub fn new(max_history: usize) -> (r: Self)
        ensures
            r@ == empty_history(max_history as nat),
            r.can_step(),
            r.inv(),
    {
        let r = UndoManager {
            undo_stack: Vec::new(),
            undo_versions: Vec::new(),
            redo_stack: Vec::new(),
            redo_versions: Vec::new(),
            max_history,
            saved_version: 0,
            current_version: 0,
            last_version: 0,
        };
        assert(op_records(r.undo_stack@) =~= Seq::empty());
        assert(op_records(r.redo_stack@) =~= Seq::empty());
        assert(versions(r.undo_versions@) =~= Seq::empty());
        assert(versions(r.redo_versions@) =~= Seq::empty());
        r
    }

    /// Create with default max history (1000 operations)
    pub fn with_default_history() -> (r: Self)
        ensures
            r@ == empty_history(1000),
            r.can_step(),
            r.inv(),
    {
        Self::new(1000)
    }

    /// Whether a fresh version is still available.
    pub fn has_room(&self) -> (r: bool)
        requires
            self.inv(),
        ensures
            r == self.can_step(),
            r == (self@.last_version < usize::MAX),
    {
        self.last_version < usize::MAX
    }

    /// Drop the oldest entries (with their versions) until at most
    /// `max_history` remain.
    fn trim(&mut self)
        requires
            old(self).undo_versions@.len() == old(self).undo_stack@.len(),
        ensures
            final(self)@ == (HistoryModel {
                undo: keep_newest(old(self)@.undo, old(self)@.max_history),
                undo_versions: keep_newest(old(self)@.undo_versions, old(self)@.max_history),
                ..old(self)@
            }),
    {
        let ghost full = op_records(self.undo_stack@);
        let ghost fullv = versions(self.undo_versions@);
        let max = self.max_history;
        while self.undo_stack.len() > max
            invariant
                max == self.max_history,
                self.redo_stack == old(self).redo_stack,
                self.redo_versions == old(self).redo_versions,
                self.max_history == old(self).max_history,
                self.saved_version == old(self).saved_version,
                self.current_version == old(self).current_version,
                self.last_version == old(self).last_version,
                full == op_records(old(self).undo_stack@),
                fullv == versions(old(self).undo_versions@),
                fullv.len() == full.len(),
                self.undo_versions@.len() == self.undo_stack@.len(),
                self.undo_stack@.len() <= full.len(),
                full.len() > max ==> self.undo_stack@.len() >= max,
                full.len() <= max ==> self.undo_stack@.len() == full.len(),
                op_records(self.undo_stack@) == full.subrange(
                    full.len() - self.undo_stack@.len(),
                    full.len() as int,
                ),
                versions(self.undo_versions@) == fullv.subrange(
                    fullv.len() - self.undo_versions@.len(),
                    fullv.len() as int,
                ),
            decreases self.undo_stack@.len(),
        {
            let ghost before = op_records(self.undo_stack@);
            let ghost beforev = versions(self.undo_versions@);
            self.undo_stack.remove(0);
            self.undo_versions.remove(0);
            proof {
                assert(op_records(self.undo_stack@) =~= before.subrange(1, before.len() as int));
                assert(versions(self.undo_versions@) =~= beforev.subrange(1, beforev.len() as int));
            }
        }
        proof {
            assert(op_records(self.undo_stack@) =~= keep_newest(full, max as nat));
            assert(versions(self.undo_versions@) =~= keep_newest(fullv, max as nat));
        }
    }

    /// Push an operation: merged into the top entry when they join, pushed
    /// otherwise; the new state gets a fresh version, the redo stack
    /// empties and the oldest entries beyond the maximum leave
    pub fn push(&mut self, operation: EditOperation)
        requires
            old(self).can_step(),
        ensures
            final(self).inv(),
            final(self)@ == after_push(old(self)@, operation@),
    {
        let ghost h = self@;
        proof {
            lemma_push_ok(h, operation@);
        }
        let n = self.undo_stack.len();
        if n > 0 && self.undo_stack[n - 1].can_merge_with(&operation) {
            let mut last = self.undo_stack.pop().unwrap();
            last.merge(operation);
            self.undo_stack.push(last);
            proof {
                assert(op_records(self.undo_stack@) =~= h.undo.update(
                    h.undo.len() - 1,
                    merged(h.undo.last(), operation@),
                ));
            }
        } else {
            self.undo_stack.push(operation);
            self.undo_versions.push(self.current_version);
            proof {
                assert(op_records(self.undo_stack@) =~= h.undo.push(operation@));
                assert(versions(self.undo_versions@) =~= h.undo_versions.push(h.current_version));
            }
        }
        self.last_version = self.last_version + 1;
        self.current_version = self.last_version;
        self.redo_stack.clear();
        self.redo_versions.clear();
        proof {
            assert(op_records(self.redo_stack@) =~= Seq::empty());
            assert(versions(self.redo_versions@) =~= Seq::empty());
        }
        self.trim();
    }

    /// Undo the last operation: it moves to the redo stack and is returned
    /// for the caller to reverse; the version returns to the one before it
    pub fn undo(&mut self) -> (r: Option<EditOperation>)
        requires
            old(self).inv(),
        ensures
            final(self).inv(),
            final(self)@ == after_undo(old(self)@),
            old(self)@.undo.len() == 0 ==> r is None,
            old(self)@.undo.len() > 0 ==> (r matches Some(op) && op@ == old(self)@.undo.last()),
    {
        if self.undo_stack.is_empty() {
            return None;
        }
        let ghost h = self@;
        proof {
            lemma_undo_ok(h);
        }
        let operation = self.undo_stack.pop().unwrap();
        let version = self.undo_versions.pop().unwrap();
        self.redo_stack.push(operation.duplicate());
        self.redo_versions.push(self.current_version);
        self.current_version = version;
        proof {
            assert(op_records(self.undo_stack@) =~= h.undo.drop_last());
            assert(versions(self.undo_versions@) =~= h.undo_versions.drop_last());
            assert(op_records(self.redo_stack@) =~= h.redo.push(h.undo.last()));
            assert(versions(self.redo_versions@) =~= h.redo_versions.push(h.current_version));
        }
        Some(operation)
    }

    /// Redo the last undone operation: it moves back to the undo stack and
    /// is returned for the caller to apply; the version returns to the one
    /// it led to
    pub fn redo(&mut self) -> (r: Option<EditOperation>)
        requires
            old(self).inv(),
        ensures
            final(self).inv(),
            final(self)@ == after_redo(old(self)@),
            old(self)@.redo.len() == 0 ==> r is None,
            old(self)@.redo.len() > 0 ==> (r matches Some(op) && op@ == old(self)@.redo.last()),
    {
        if self.redo_stack.is_empty() {
            return None;
        }
        let ghost h = self@;
        proof {
            lemma_redo_ok(h);
        }
        let operation = self.redo_stack.pop().unwrap();
        let version = self.redo_versions.pop().unwrap();
        self.undo_stack.push(operation.duplicate());
        self.undo_versions.push(self.current_version);
        self.current_version = version;
        proof {
            assert(op_records(self.redo_stack@) =~= h.redo.drop_last());
            assert(versions(self.redo_versions@) =~= h.redo_versions.drop_last());
            assert(op_records(self.undo_stack@) =~= h.undo.push(h.redo.last()));
            assert(versions(self.undo_versions@) =~= h.undo_versions.push(h.current_version));
        }
        Some(operation)
    }

    /// Check if undo is available
    pub fn can_undo(&self) -> (r: bool)
        ensures
            r == (self@.undo.len() > 0),
    {
        !self.undo_stack.is_empty()
    }

    /// Check if redo is available
    pub fn can_redo(&self) -> (r: bool)
        ensures
            r == (self@.redo.len() > 0),
    {
        !self.redo_stack.is_empty()
    }

    /// Clear all history and the version counters
    pub fn clear(&mut self)
        ensures
            final(self)@ == empty_history(old(self)@.max_history),
            final(self).can_step(),
            final(self).inv(),
    {
        self.undo_stack.clear();
        self.undo_versions.clear();
        self.redo_stack.clear();
        self.redo_versions.clear();
        self.current_version = 0;
        self.saved_version = 0;
        self.last_version = 0;
        proof {
            assert(op_records(self.undo_stack@) =~= Seq::empty());
            assert(op_records(self.redo_stack@) =~= Seq::empty());
            assert(versions(self.undo_versions@) =~= Seq::empty());
            assert(versions(self.redo_versions@) =~= Seq::empty());
        }
    }

    /// Mark current state as saved
    pub fn mark_saved(&mut self)
        ensures
            final(self)@ == after_mark_saved(old(self)@),
            final(self).can_step() == old(self).can_step(),
            final(self).inv() == old(self).inv(),
    {
        self.saved_version = self.current_version;
    }

    /// Check if we're at the saved state
    pub fn is_at_saved_state(&self) -> (r: bool)
        ensures
            r == at_saved(self@),
    {
        self.saved_version == self.current_version
    }

    /// Get undo stack size
    pub fn undo_count(&self) -> (r: usize)
        ensures
            r == self@.undo.len(),
    {
        self.undo_stack.len()
    }

    /// Get redo stack size
    pub fn redo_count(&self) -> (r: usize)
        ensures
            r == self@.redo.len(),
    {
        self.redo_stack.len()
    }

    /// Sum of a stack's usage, saturating at the largest `usize`.
    fn usage_of(stack: &Vec<EditOperation>) -> (r: usize)
        ensures
            r == min_usage(stack_usage(op_records(stack@))),
    {
        let ghost recs = op_records(stack@);
        let mut total: usize = 0;
        let mut i: usize = 0;
        while i < stack.len()
            invariant
                i <= stack@.len(),
                recs == op_records(stack@),
                total == min_usage(stack_usage(recs.subrange(0, i as int))),
            decreases stack@.len() - i,
        {
            let chars = stack[i].text.as_str().unicode_len();
            proof {
                assert(recs.subrange(0, i + 1).drop_last() =~= recs.subrange(0, i as int));
                lemma_usage_nonneg(recs.subrange(0, i as int));
            }
            let step = if chars <= usize::MAX - 128 {
                chars + 128
            } else {
                usize::MAX
            };
            total = if total <= usize::MAX - step {
                total + step
            } else {
                usize::MAX
            };
            i = i + 1;
        }
        assert(recs.subrange(0, stack@.len() as int) =~= recs);
        total
    }

    /// Approximate memory use: the characters of all recorded texts plus 128
    /// per operation, saturating at the largest `usize`
    pub fn memory_usage(&self) -> (r: usize)
        ensures
            r == min_usage(stack_usage(self@.undo) + stack_usage(self@.redo)),
    {
        let u = Self::usage_of(&self.undo_stack);
        let v = Self::usage_of(&self.redo_stack);
        proof {
            lemma_usage_nonneg(self@.undo);
            lemma_usage_nonneg(self@.redo);
        }
        if u <= usize::MAX - v {
            u + v
        } else {
            usize::MAX
        }
    }
}

/// `x` capped at the largest `usize`.
pub open spec fn min_usage(x: int) -> int {
    if x <= usize::MAX {
        x
    } else {
        usize::MAX as int
    }
}

proof fn lemma_usage_nonneg(s: Seq<OpRecord>)
    ensures
        stack_usage(s) >= 0,
    decreases s.len(),
{
    if s.len() > 0 {
        lemma_usage_nonneg(s.drop_last());
    }
}

impl Default for UndoManager {
    fn default() -> (r: Self)
        ensures
            r@ == empty_history(1000),
    {
        Self::with_default_history()
    }
}

/// Saved-state tracking follows the history: after a push the state is
/// unsaved, marking it saved makes it saved, an undo leaves it, and a redo
/// comes back to it.
pub proof fn lemma_saved_state_tracking(h: HistoryModel, op: OpRecord)
    requires
        at_saved(h),
        history_ok(h),
    ensures
        ({
            let h1 = after_push(h, op);
            let h2 = after_mark_saved(h1);
            let h3 = after_undo(h2);
            let h4 = after_redo(h3);
            &&& !at_saved(h1)
            &&& at_saved(h2)
            &&& (h2.undo.len() > 0 ==> !at_saved(h3))
            &&& (h2.undo.len() > 0 ==> at_saved(h4))
        }),
{
    lemma_push_ok(h, op);
    let h1 = after_push(h, op);
    let merge = h.undo.len() > 0 && mergeable(h.undo.last(), op);
    let uv = if merge { h.undo_versions } else { h.undo_versions.push(h.current_version) };
    assert forall|i: int| 0 <= i < uv.len() implies #[trigger] uv[i] <= h.last_version by {
        if i < h.undo_versions.len() {
            assert(uv[i] == h.undo_versions[i]);
        }
    }
    lemma_keep_newest_bounded(uv, h.max_history, h.last_version);
    if h1.undo.len() > 0 {
        assert(h1.undo_versions[h1.undo_versions.len() - 1] <= h.last_version);
    }
}

/// A new edit after undoing back from the saved state leaves the saved
/// state behind for good: the new state's version was never handed out.
pub proof fn lemma_new_edit_is_unsaved(h: HistoryModel, op: OpRecord)
    requires
        history_ok(h),
        h.saved_version <= h.last_version,
    ensures
        !at_saved(after_push(h, op)),
        after_push(h, op).saved_version == h.saved_version,
{
}

/// Pushing operations that never join leaves at most `max_history` entries:
/// after pushing more than that, exactly the newest `max_history` remain.
pub proof fn lemma_history_cap(h: HistoryModel, op: OpRecord)
    requires
        h.undo.len() <= h.max_history,
        !(h.undo.len() > 0 && mergeable(h.undo.last(), op)),
    ensures
        after_push(h, op).undo == keep_newest(h.undo.push(op), h.max_history),
        after_push(h, op).undo.len() == (if h.undo.len() < h.max_history {
            (h.undo.len() + 1) as int
        } else {
            h.max_history as int
        }),
        h.max_history > 0 ==> after_push(h, op).undo.last() == op,
{
}

/// The history after pushing each of `ops` in turn.
pub open spec fn push_all(h: HistoryModel, ops: Seq<OpRecord>) -> HistoryModel
    decreases ops.len(),
{
    if ops.len() == 0 {
        h
    } else {
        after_push(push_all(h, ops.drop_last()), ops.last())
    }
}

proof fn lemma_keep_newest_push(s: Seq<OpRecord>, x: OpRecord, m: nat)
    requires
        m > 0,
    ensures
        keep_newest(keep_newest(s, m).push(x), m) == keep_newest(s.push(x), m),
{
    assert(keep_newest(keep_newest(s, m).push(x), m) =~= keep_newest(s.push(x), m));
}

/// Pushing operations of which none joins the one before it, starting from
/// an empty undo stack, keeps exactly the newest `max_history` of them, in
/// order: the oldest are evicted first.
pub proof fn lemma_history_keeps_newest(h: HistoryModel, ops: Seq<OpRecord>)
    requires
        h.undo.len() == 0,
        forall|i: int| 0 <= i < ops.len() - 1 ==> !mergeable(#[trigger] ops[i], ops[i + 1]),
    ensures
        push_all(h, ops).undo == keep_newest(ops, h.max_history),
        push_all(h, ops).max_history == h.max_history,
        push_all(h, ops).redo.len() == 0 || ops.len() == 0,
    decreases ops.len(),
{
    if ops.len() > 0 {
        let prefix = ops.drop_last();
        assert forall|i: int| 0 <= i < prefix.len() - 1 implies !mergeable(#[trigger] prefix[i], prefix[i + 1]) by {
            assert(prefix[i] == ops[i] && prefix[i + 1] == ops[i + 1]);
        }
        lemma_history_keeps_newest(h, prefix);
        let h1 = push_all(h, prefix);
        let m = h.max_history;
        if m == 0 {
            assert(keep_newest(prefix, 0) =~= Seq::<OpRecord>::empty());
            assert(keep_newest(h1.undo.push(ops.last()), 0) =~= Seq::<OpRecord>::empty());
            assert(keep_newest(ops, 0) =~= Seq::<OpRecord>::empty());
        } else {
            if prefix.len() > 0 {
                assert(h1.undo.last() == prefix.last());
                assert(!mergeable(ops[ops.len() - 2], ops[ops.len() - 1]));
            }
            lemma_keep_newest_push(prefix, ops.last(), m);
            assert(prefix.push(ops.last()) =~= ops);
        }
    }
}

/// Two single-character insertions typed next to each other join when the
/// second comes at most the merge window after the first, and not later.
pub proof fn lemma_merge_window(a: OpRecord, b: OpRecord)
    requires
        a.kind is Insert,
        b.kind is Insert,
        a.text.len() == 1,
        b.text.len() == 1,
        b.text[0] != '\n',
        b.text[0] != ' ',
        b.position == a.position + 1,
        b.timestamp >= a.timestamp,
    ensures
        mergeable(a, b) == (b.timestamp - a.timestamp <= MERGE_WINDOW_MS),
        mergeable(a, b) ==> merged(a, b).text == a.text + b.text,
{
    assert(b.text != seq!['\n']) by {
        if b.text == seq!['\n'] {
            assert(b.text[0] == '\n');
        }
    }
    assert(b.text != seq![' ']) by {
        if b.text == seq![' '] {
            assert(b.text[0] == ' ');
        }
    }
}

} // verus!
