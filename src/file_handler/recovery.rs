//! Crash-recovery bookkeeping: the manifest of recovery entries, keyed by
//! document id. Reading and writing recovery files is done by the
//! application.

use vstd::prelude::*;
use crate::utils::now_millis;
use std::hash::{Hash, Hasher};

verus! {

/// Seconds in a day.
pub const SECONDS_PER_DAY: u64 = 86400;

/// What std's `DefaultHasher` gives for a text.
pub uninterp spec fn content_hash_of(s: Seq<char>) -> u64;

/// Relies on `str`'s `Hash` fed to `DefaultHasher::new()`, whose keys are
/// fixed: the value depends on the text alone.
#[verifier::external_body]
fn default_hash(content: &str) -> (r: u64)
    ensures
        r == content_hash_of(content@),
{
    let mut hasher = std::collections::hash_map::DefaultHasher::new();
    content.hash(&mut hasher);
    hasher.finish()
}

/// Simple hash function for content comparison
pub fn simple_hash(content: &str) -> (r: u64)
    ensures
        r == content_hash_of(content@),
{
    default_hash(content)
}

/// A single recovery entry
#[derive(Debug, Clone)]
pub struct RecoveryEntry {
    /// Document UUID
    pub document_id: String,
    /// Original file path (None for new/unsaved files)
    pub original_path: Option<String>,
    /// Path to the recovery file
    pub recovery_path: String,
    /// Display name for the document
    pub display_name: String,
    /// When recovery file was first created, in seconds since the epoch
    pub created_at: u64,
    /// When recovery file was last updated, in seconds since the epoch
    pub last_modified: u64,
    /// Simple hash of content for change detection
    pub content_hash: Option<u64>,
}

impl RecoveryEntry {
    /// Age of the recovery in whole days at `now` (0 if `now` is earlier)
    pub fn age_days_at(&self, now: u64) -> (r: u64)
        ensures
            r == (if now >= self.created_at {
                ((now - self.created_at) / (SECONDS_PER_DAY as int)) as u64
            } else {
                0
            }),
    {
        if now >= self.created_at {
            (now - self.created_at) / SECONDS_PER_DAY
        } else {
            0
        }
    }

    /// Get age of recovery in days
    pub fn age_days(&self) -> (r: u64) {
        let now = now_millis() / 1000;
        self.age_days_at(now)
    }
}

/// Index of the entry kept under `id`, or -1.
pub open spec fn find_id(s: Seq<(String, RecoveryEntry)>, id: Seq<char>) -> int
    decreases s.len(),
{
    if s.len() == 0 {
        -1
    } else if s.last().0@ == id {
        s.len() - 1
    } else {
        find_id(s.drop_last(), id)
    }
}

/// An entry is stale at `now` when it was last modified more than
/// `max_age_days` days earlier.
pub open spec fn is_stale(e: RecoveryEntry, now: u64, max_age_days: u64) -> bool {
    now >= e.last_modified && now - e.last_modified > max_age_days * SECONDS_PER_DAY
}

/// The stale entries of `s`, in order.
pub open spec fn stale_entries(s: Seq<(String, RecoveryEntry)>, now: u64, max_age_days: u64) -> Seq<RecoveryEntry>
    decreases s.len(),
{
    if s.len() == 0 {
        Seq::empty()
    } else if is_stale(s.last().1, now, max_age_days) {
        stale_entries(s.drop_last(), now, max_age_days).push(s.last().1)
    } else {
        stale_entries(s.drop_last(), now, max_age_days)
    }
}

/// The entries of `s` that are not stale, in order.
pub open spec fn fresh_entries(s: Seq<(String, RecoveryEntry)>, now: u64, max_age_days: u64) -> Seq<(String, RecoveryEntry)>
    decreases s.len(),
{
    if s.len() == 0 {
        Seq::empty()
    } else if is_stale(s.last().1, now, max_age_days) {
        fresh_entries(s.drop_last(), now, max_age_days)
    } else {
        fresh_entries(s.drop_last(), now, max_age_days).push(s.last())
    }
}

/// Recovery manifest containing all recovery file metadata
#[derive(Debug, Clone)]
pub struct RecoveryManifest {
    /// Schema version for future compatibility
    pub version: u32,
    /// Document id and recovery entry, one entry per id
    pub files: Vec<(String, RecoveryEntry)>,
    /// When the manifest was last updated, in seconds since the epoch
    pub last_updated: u64,
}

impl Default for RecoveryManifest {
    fn default() -> (r: Self)
        ensures
            r.version == 1,
            r.files@.len() == 0,
    {
        RecoveryManifest { version: 1, files: Vec::new(), last_updated: now_millis() / 1000 }
    }
}

impl RecoveryManifest {
    /// Position of the entry under `id`.
    fn position_of(&self, id: &str) -> (r: Option<usize>)
        ensures
            r matches Some(i) ==> i == find_id(self.files@, id@) && i < self.files@.len(),
            r is None ==> find_id(self.files@, id@) == -1,
    {
        let ghost s = self.files@;
        let key = String::from_str(id);
        let mut i: usize = self.files.len();
        assert(s.subrange(0, s.len() as int) =~= s);
        while i > 0
            invariant
                i <= s.len(),
                s == self.files@,
                key@ == id@,
                find_id(s, id@) == find_id(s.subrange(0, i as int), id@),
            decreases i,
        {
            let ghost t = s.subrange(0, i as int);
            assert(t.drop_last() =~= s.subrange(0, i - 1));
            if self.files[i - 1].0 == key {
                return Some(i - 1);
            }
            i = i - 1;
        }
        None
    }

    /// Add or update a recovery entry
    pub fn add_entry(&mut self, document_id: &str, entry: RecoveryEntry)
        ensures
            final(self).version == old(self).version,
            find_id(old(self).files@, document_id@) >= 0 ==> final(self).files@.len()
                == old(self).files@.len() && final(self).files@[find_id(
                old(self).files@,
                document_id@,
            )].1 == entry && final(self).files@[find_id(old(self).files@, document_id@)].0@
                == document_id@,
            find_id(old(self).files@, document_id@) == -1 ==> final(self).files@.len()
                == old(self).files@.len() + 1 && final(self).files@.last().1 == entry
                && final(self).files@.last().0@ == document_id@,
    {
        match self.position_of(document_id) {
            Some(i) => {
                self.files.set(i, (String::from_str(document_id), entry));
            },
            None => {
                self.files.push((String::from_str(document_id), entry));
            },
        }
        self.last_updated = now_millis() / 1000;
    }

    /// Remove a recovery entry
    pub fn remove_entry(&mut self, document_id: &str) -> (r: Option<RecoveryEntry>)
        ensures
            final(self).version == old(self).version,
            find_id(old(self).files@, document_id@) == -1 ==> r is None && final(self).files@
                == old(self).files@,
            find_id(old(self).files@, document_id@) >= 0 ==> r == Some(
                old(self).files@[find_id(old(self).files@, document_id@)].1,
            ) && final(self).files@ == old(self).files@.remove(
                find_id(old(self).files@, document_id@),
            ),
    {
        match self.position_of(document_id) {
            Some(i) => {
                let (_, entry) = self.files.remove(i);
                self.last_updated = now_millis() / 1000;
                Some(entry)
            },
            None => None,
        }
    }

    /// Get a recovery entry
    pub fn get_entry(&self, document_id: &str) -> (r: Option<&RecoveryEntry>)
        ensures
            find_id(self.files@, document_id@) == -1 ==> r is None,
            find_id(self.files@, document_id@) >= 0 ==> r == Some(
                &self.files@[find_id(self.files@, document_id@)].1,
            ),
    {
        match self.position_of(document_id) {
            Some(i) => Some(&self.files[i].1),
            None => None,
        }
    }

    /// Check if there are any recovery files
    pub fn has_recovery_files(&self) -> (r: bool)
        ensures
            r == (self.files@.len() > 0),
    {
        !self.files.is_empty()
    }

    /// Remove the entries that are stale at `now` (seconds since the epoch)
    /// and return them, in order; the others stay in order
    pub fn remove_stale_entries_at(&mut self, now: u64, max_age_days: u64) -> (r: Vec<RecoveryEntry>)
        ensures
            r@ == stale_entries(old(self).files@, now, max_age_days),
            final(self).files@ == fresh_entries(old(self).files@, now, max_age_days),
            final(self).version == old(self).version,
    {
        let ghost s = self.files@;
        let n = self.files.len();
        let mut removed: Vec<RecoveryEntry> = Vec::new();
        let mut kept: Vec<(String, RecoveryEntry)> = Vec::new();
        let mut k: usize = 0;
        let limit: u128 = max_age_days as u128 * SECONDS_PER_DAY as u128;
        while self.files.len() > 0
            invariant
                k + self.files@.len() == s.len(),
                s.len() == n,
                s == old(self).files@,
                self.files@ == s.subrange(k as int, s.len() as int),
                self.version == old(self).version,
                limit == max_age_days * SECONDS_PER_DAY,
                removed@ == stale_entries(s.subrange(0, k as int), now, max_age_days),
                kept@ == fresh_entries(s.subrange(0, k as int), now, max_age_days),
            decreases self.files@.len(),
        {
            let (id, entry) = self.files.remove(0);
            assert(s.subrange(0, k + 1).drop_last() =~= s.subrange(0, k as int));
            assert(s.subrange(k + 1, s.len() as int) =~= s.subrange(k as int, s.len() as int).subrange(
                1,
                s.len() - k,
            ));
            if now >= entry.last_modified && (now - entry.last_modified) as u128 > limit {
                removed.push(entry);
            } else {
                kept.push((id, entry));
            }
            k = k + 1;
        }
        assert(s.subrange(0, s.len() as int) =~= s);
        self.files = kept;
        if removed.len() > 0 {
            self.last_updated = now_millis() / 1000;
        }
        removed
    }

    /// Remove stale entries (older than max_age_days), judged now
    pub fn remove_stale_entries(&mut self, max_age_days: u64) -> (r: Vec<RecoveryEntry>)
        ensures
            final(self).version == old(self).version,
    {
        let now = now_millis() / 1000;
        self.remove_stale_entries_at(now, max_age_days)
    }
}

/// Recovery-related errors
#[derive(Debug, Clone)]
pub enum RecoveryError {
    /// No recovery directory available
    NoRecoveryDir,
    /// I/O error
    IoError(String),
    /// Parse error
    ParseError(String),
    /// Recovery entry not found
    NotFound,
}

impl RecoveryError {
    /// Message describing the error
    pub fn message(&self) -> (r: String)
        ensures
            r@ == (match self {
                RecoveryError::NoRecoveryDir => "Recovery directory not available"@,
                RecoveryError::IoError(e) => "I/O error: "@ + e@,
                RecoveryError::ParseError(e) => "Parse error: "@ + e@,
                RecoveryError::NotFound => "Recovery entry not found"@,
            }),
    {
        match self {
            RecoveryError::NoRecoveryDir => String::from_str("Recovery directory not available"),
            RecoveryError::IoError(e) => String::from_str("I/O error: ").concat(e.as_str()),
            RecoveryError::ParseError(e) => String::from_str("Parse error: ").concat(e.as_str()),
            RecoveryError::NotFound => String::from_str("Recovery entry not found"),
        }
    }
}

} // verus!
