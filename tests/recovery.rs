use cosmic_notebook::file_handler::recovery::{simple_hash, RecoveryEntry, RecoveryError, RecoveryManifest};

fn entry(id: &str, modified: u64) -> RecoveryEntry {
    RecoveryEntry {
        document_id: id.to_string(),
        original_path: None,
        recovery_path: format!("/tmp/{}.md.recovery", id),
        display_name: id.to_string(),
        created_at: modified,
        last_modified: modified,
        content_hash: None,
    }
}

#[test]
fn test_simple_hash() {
    let h1 = simple_hash("hello");
    let h2 = simple_hash("hello");
    let h3 = simple_hash("world");
    assert_eq!(h1, h2);
    assert_ne!(h1, h3);
}

#[test]
fn test_recovery_manifest_default() {
    let manifest = RecoveryManifest::default();
    assert_eq!(manifest.version, 1);
    assert!(manifest.files.is_empty());
}

#[test]
fn test_recovery_entry_age() {
    let e = entry("test", 1_000_000);
    assert_eq!(e.age_days_at(1_000_000), 0);
    assert_eq!(e.age_days_at(1_000_000 + 2 * 86_400 + 5), 2);
    assert_eq!(e.age_days_at(5), 0);
}

#[test]
fn manifest_add_get_remove() {
    let mut m = RecoveryManifest::default();
    m.add_entry("a", entry("a", 10));
    m.add_entry("b", entry("b", 20));
    m.add_entry("a", entry("a", 30));
    assert_eq!(m.files.len(), 2);
    assert!(m.has_recovery_files());
    assert_eq!(m.get_entry("a").unwrap().last_modified, 30);
    assert!(m.get_entry("c").is_none());
    assert_eq!(m.remove_entry("a").unwrap().last_modified, 30);
    assert!(m.remove_entry("a").is_none());
    assert_eq!(m.files.len(), 1);
}

#[test]
fn manifest_removes_stale_entries_in_order() {
    let mut m = RecoveryManifest::default();
    m.add_entry("old1", entry("old1", 0));
    m.add_entry("new", entry("new", 9 * 86_400));
    m.add_entry("old2", entry("old2", 100));
    let removed = m.remove_stale_entries_at(10 * 86_400, 7);
    assert_eq!(removed.len(), 2);
    assert_eq!(removed[0].document_id, "old1");
    assert_eq!(removed[1].document_id, "old2");
    assert_eq!(m.files.len(), 1);
    assert_eq!(m.files[0].0, "new");
    assert_eq!(RecoveryError::NotFound.message(), "Recovery entry not found");
}
