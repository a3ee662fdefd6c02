//! File watcher events, configuration and event debouncing.
//!
//! Paths are carried as text.

use vstd::prelude::*;
use crate::state::editor_state::gap;
use crate::utils::now_millis;

verus! {

/// Events from the file watcher
#[derive(Debug, Clone)]
pub enum WatchEvent {
    /// A file was created
    FileCreated(String),
    /// A file was modified
    FileModified(String),
    /// A file was deleted
    FileDeleted(String),
    /// A file was renamed (old path, new path)
    FileRenamed { from: String, to: String },
    /// A directory was created
    DirCreated(String),
    /// A directory was deleted
    DirDeleted(String),
    /// Watcher error occurred
    Error(String),
}

/// The path an event is debounced under: the new path of a rename, none
/// for an error.
pub open spec fn event_key(e: WatchEvent) -> Option<Seq<char>> {
    match e {
        WatchEvent::FileCreated(p) => Some(p@),
        WatchEvent::FileModified(p) => Some(p@),
        WatchEvent::FileDeleted(p) => Some(p@),
        WatchEvent::FileRenamed { from, to } => Some(to@),
        WatchEvent::DirCreated(p) => Some(p@),
        WatchEvent::DirDeleted(p) => Some(p@),
        WatchEvent::Error(_) => None,
    }
}

/// Configuration for the file watcher
#[derive(Debug, Clone)]
pub struct WatcherConfig {
    /// Debounce interval in milliseconds
    pub debounce_ms: u64,
    /// Whether to watch directories recursively
    pub recursive: bool,
    /// File extensions to watch (empty = all), without repeats
    pub watch_extensions: Vec<String>,
    /// Whether to follow symlinks
    pub follow_symlinks: bool,
}

impl Default for WatcherConfig {
    /// Markdown files only, 500 ms debounce, recursive, no symlinks.
    fn default() -> (r: Self)
        ensures
            r.debounce_ms == 500,
            r.recursive,
            !r.follow_symlinks,
            r.watch_extensions@.len() == 2,
            r.watch_extensions@[0]@ == "md"@,
            r.watch_extensions@[1]@ == "markdown"@,
    {
        let mut watch_extensions = Vec::new();
        watch_extensions.push(String::from_str("md"));
        watch_extensions.push(String::from_str("markdown"));
        WatcherConfig { debounce_ms: 500, recursive: true, watch_extensions, follow_symlinks: false }
    }
}

impl WatcherConfig {
    /// Watch all file types
    pub fn watch_all() -> (r: Self)
        ensures
            r.debounce_ms == 500,
            r.recursive,
            !r.follow_symlinks,
            r.watch_extensions@.len() == 0,
    {
        WatcherConfig { watch_extensions: Vec::new(), ..Self::default() }
    }
}

/// Index of the pending entry debounced under `k`, or -1.
pub open spec fn find_key(s: Seq<(WatchEvent, u64)>, k: Seq<char>) -> int
    decreases s.len(),
{
    if s.len() == 0 {
        -1
    } else if event_key(s.last().0) == Some(k) {
        s.len() - 1
    } else {
        find_key(s.drop_last(), k)
    }
}

/// The entries of `s` whose time has come at `now`.
pub open spec fn ready_entries(s: Seq<(WatchEvent, u64)>, now: u64, delay: u64) -> Seq<WatchEvent>
    decreases s.len(),
{
    if s.len() == 0 {
        Seq::empty()
    } else if gap(s.last().1, now) >= delay {
        ready_entries(s.drop_last(), now, delay).push(s.last().0)
    } else {
        ready_entries(s.drop_last(), now, delay)
    }
}

/// The entries of `s` still waiting at `now`.
pub open spec fn waiting_entries(s: Seq<(WatchEvent, u64)>, now: u64, delay: u64) -> Seq<(WatchEvent, u64)>
    decreases s.len(),
{
    if s.len() == 0 {
        Seq::empty()
    } else if gap(s.last().1, now) >= delay {
        waiting_entries(s.drop_last(), now, delay)
    } else {
        waiting_entries(s.drop_last(), now, delay).push(s.last())
    }
}

/// Collects watcher events per path until they have been quiet for the
/// debounce interval; a newer event for a path replaces the older one.
pub struct EventDebouncer {
    pending: Vec<(WatchEvent, u64)>,
    debounce_ms: u64,
}

impl EventDebouncer {
    /// The pending events with the time each was last seen, oldest key first.
    pub closed spec fn pending(&self) -> Seq<(WatchEvent, u64)> {
        self.pending@
    }

    /// The debounce interval in milliseconds.
    pub closed spec fn delay(&self) -> u64 {
        self.debounce_ms
    }

    /// Create a new debouncer
    pub fn new(debounce_ms: u64) -> (r: Self)
        ensures
            r.pending().len() == 0,
            r.delay() == debounce_ms,
    {
        EventDebouncer { pending: Vec::new(), debounce_ms }
    }

    /// Whether a pending entry is debounced under `key`.
    fn matches_key(e: &WatchEvent, key: &String) -> (r: bool)
        ensures
            r == (event_key(*e) == Some(key@)),
    {
        match e {
            WatchEvent::FileCreated(p) => *p == *key,
            WatchEvent::FileModified(p) => *p == *key,
            WatchEvent::FileDeleted(p) => *p == *key,
            WatchEvent::FileRenamed { to, .. } => *to == *key,
            WatchEvent::DirCreated(p) => *p == *key,
            WatchEvent::DirDeleted(p) => *p == *key,
            WatchEvent::Error(_) => false,
        }
    }

    /// The key of an event, if it has one.
    fn key_of(e: &WatchEvent) -> (r: Option<String>)
        ensures
            r matches Some(k) ==> event_key(*e) == Some(k@),
            r is None ==> event_key(*e) is None,
    {
        match e {
            WatchEvent::FileCreated(p) => Some(p.clone()),
            WatchEvent::FileModified(p) => Some(p.clone()),
            WatchEvent::FileDeleted(p) => Some(p.clone()),
            WatchEvent::FileRenamed { to, .. } => Some(to.clone()),
            WatchEvent::DirCreated(p) => Some(p.clone()),
            WatchEvent::DirDeleted(p) => Some(p.clone()),
            WatchEvent::Error(_) => None,
        }
    }

    /// Add an event seen at time `now` (milliseconds): it replaces the
    /// pending event of its path, or joins the end; errors are ignored
    pub fn add_at(&mut self, event: WatchEvent, now: u64)
        ensures
            final(self).delay() == old(self).delay(),
            event_key(event) is None ==> final(self).pending() == old(self).pending(),
            event_key(event) matches Some(k) ==> final(self).pending() == (if find_key(
                old(self).pending(),
                k,
            ) >= 0 {
                old(self).pending().update(find_key(old(self).pending(), k), (event, now))
            } else {
                old(self).pending().push((event, now))
            }),
    {
        let key = match Self::key_of(&event) {
            Some(k) => k,
            None => return,
        };
        let ghost s = self.pending@;
        let mut i: usize = self.pending.len();
        assert(s.subrange(0, s.len() as int) =~= s);
        while i > 0
            invariant
                i <= s.len(),
                self.pending@ == s,
                s == old(self).pending@,
                event_key(event) == Some(key@),
                self.debounce_ms == old(self).debounce_ms,
                find_key(s, key@) == find_key(s.subrange(0, i as int), key@),
            decreases i,
        {
            let ghost t = s.subrange(0, i as int);
            assert(t.drop_last() =~= s.subrange(0, i - 1));
            if Self::matches_key(&self.pending[i - 1].0, &key) {
                assert(find_key(t, key@) == i - 1);
                self.pending.set(i - 1, (event, now));
                return;
            }
            i = i - 1;
        }
        assert(s.subrange(0, 0) =~= Seq::<(WatchEvent, u64)>::empty());
        self.pending.push((event, now));
    }

    /// Add an event, stamped with the current time
    pub fn add(&mut self, event: WatchEvent)
        ensures
            final(self).delay() == old(self).delay(),
            event_key(event) is None ==> final(self).pending() == old(self).pending(),
            event_key(event) is Some ==> final(self).pending().len() >= old(self).pending().len(),
    {
        let now = now_millis();
        proof {
            if let Some(k) = event_key(event) {
                lemma_find_key_range(self.pending@, k);
            }
        }
        self.add_at(event, now);
    }

    /// Take the events that have been quiet for the debounce interval at
    /// time `now`, in pending order; the others stay
    pub fn get_ready_at(&mut self, now: u64) -> (r: Vec<WatchEvent>)
        ensures
            r@ == ready_entries(old(self).pending(), now, old(self).delay()),
            final(self).pending() == waiting_entries(old(self).pending(), now, old(self).delay()),
            final(self).delay() == old(self).delay(),
    {
        let ghost s = self.pending@;
        let n = self.pending.len();
        let mut ready: Vec<WatchEvent> = Vec::new();
        let mut waiting: Vec<(WatchEvent, u64)> = Vec::new();
        let mut k: usize = 0;
        while self.pending.len() > 0
            invariant
                k + self.pending@.len() == s.len(),
                s.len() == n,
                self.pending@ == s.subrange(k as int, s.len() as int),
                self.debounce_ms == old(self).debounce_ms,
                s == old(self).pending@,
                ready@ == ready_entries(s.subrange(0, k as int), now, self.debounce_ms),
                waiting@ == waiting_entries(s.subrange(0, k as int), now, self.debounce_ms),
            decreases self.pending@.len(),
        {
            let (event, time) = self.pending.remove(0);
            assert(s.subrange(0, k + 1).drop_last() =~= s.subrange(0, k as int));
            assert(s.subrange(k + 1, s.len() as int) =~= s.subrange(k as int, s.len() as int).subrange(1, s.len() - k));
            let elapsed = if now >= time {
                now - time
            } else {
                0
            };
            if elapsed >= self.debounce_ms {
                ready.push(event);
            } else {
                waiting.push((event, time));
            }
            k = k + 1;
        }
        assert(s.subrange(0, s.len() as int) =~= s);
        self.pending = waiting;
        ready
    }

    /// Take the events that are ready now
    pub fn get_ready(&mut self) -> (r: Vec<WatchEvent>)
        ensures
            final(self).delay() == old(self).delay(),
            r@.len() + final(self).pending().len() == old(self).pending().len(),
    {
        let now = now_millis();
        proof {
            lemma_split_sizes(self.pending@, now, self.debounce_ms);
        }
        self.get_ready_at(now)
    }

    /// Check if there are pending events
    pub fn has_pending(&self) -> (r: bool)
        ensures
            r == (self.pending().len() > 0),
    {
        !self.pending.is_empty()
    }

    /// Clear all pending events
    pub fn clear(&mut self)
        ensures
            final(self).pending().len() == 0,
            final(self).delay() == old(self).delay(),
    {
        self.pending.clear();
    }
}

/// A found index lies within the entries.
pub proof fn lemma_find_key_range(s: Seq<(WatchEvent, u64)>, k: Seq<char>)
    ensures
        -1 <= find_key(s, k) < s.len(),
    decreases s.len(),
{
    if s.len() > 0 {
        lemma_find_key_range(s.drop_last(), k);
    }
}

/// Every pending entry is either ready or still waiting.
pub proof fn lemma_split_sizes(s: Seq<(WatchEvent, u64)>, now: u64, delay: u64)
    ensures
        ready_entries(s, now, delay).len() + waiting_entries(s, now, delay).len() == s.len(),
    decreases s.len(),
{
    if s.len() > 0 {
        lemma_split_sizes(s.drop_last(), now, delay);
    }
}

/// Information about a file conflict
#[derive(Debug, Clone)]
pub struct FileConflict {
    /// Path of the conflicting file
    pub path: String,
    /// What kind of external change occurred
    pub change_type: ConflictType,
    /// Whether the local copy has unsaved changes
    pub has_local_changes: bool,
}

/// Type of external change that caused a conflict
#[derive(Debug, Clone, Copy, PartialEq, Eq, Structural)]
pub enum ConflictType {
    /// File was modified externally
    ExternalModification,
    /// File was deleted externally
    ExternalDeletion,
    /// File was renamed externally
    ExternalRename,
}

/// User's choice for resolving a conflict
#[derive(Debug, Clone, Copy, PartialEq, Eq, Structural)]
pub enum ConflictResolution {
    /// Reload from disk (discard local changes)
    ReloadFromDisk,
    /// Keep local version (will overwrite on next save)
    KeepLocal,
    /// Save to a new location
    SaveAs,
    /// Show diff (if supported)
    ShowDiff,
}

} // verus!
