use cosmic_notebook::state::{RecentFile, RecoveryFile, SessionError, SessionState};

#[test]
fn test_session_default() {
    let session = SessionState::default();
    assert!(session.sidebar_visible);
    assert!(session.open_files.is_empty());
    assert_eq!(session.version, 1);
}

#[test]
fn test_add_recent_file() {
    let mut session = SessionState::new();
    session.add_recent_file("/test1.md".to_string());
    session.add_recent_file("/test2.md".to_string());
    assert_eq!(session.recent_files.len(), 2);
    assert_eq!(session.recent_files[0].path, "/test2.md");
    session.add_recent_file("/test1.md".to_string());
    assert_eq!(session.recent_files.len(), 2);
    assert_eq!(session.recent_files[0].path, "/test1.md");
}

#[test]
fn test_recent_file_display_name() {
    let recent = RecentFile { path: "/some/path/readme.md".to_string(), last_opened: 0 };
    assert_eq!(recent.display_name(), "readme.md");
}

#[test]
fn test_recovery_file_stale() {
    let now: i64 = 1_700_000_000;
    let recent = RecoveryFile {
        original_path: None,
        recovery_path: "/tmp/recovery".to_string(),
        display_name: "test".to_string(),
        created_at: now - 10 * 86_400,
        document_id: None,
    };
    assert!(recent.is_stale_at(now, 7));
    assert!(!recent.is_stale_at(now, 14));
}

#[test]
fn recent_files_are_capped_and_timed() {
    let mut session = SessionState::new();
    for i in 0..25 {
        session.add_recent_file_at(format!("/f{}.md", i), 1_000 + i);
    }
    assert_eq!(session.recent_files.len(), 20);
    assert_eq!(session.recent_files[0].path, "/f24.md");
    session.remove_recent_file(&"/f24.md".to_string());
    assert_eq!(session.recent_files[0].path, "/f23.md");
    let r = RecentFile { path: "x".to_string(), last_opened: 0 };
    assert_eq!(r.relative_time_at(30), "Just now");
    assert_eq!(r.relative_time_at(120), "2 minutes ago");
    assert_eq!(r.relative_time_at(3 * 3600), "3 hours ago");
    assert_eq!(r.relative_time_at(2 * 86400 + 5), "2 days ago");
    assert_eq!(r.relative_time_at(-5000), "Just now");
    session.update_window_state(Some((1, 2)), Some((3, 4)), true);
    assert!(session.window_maximized);
    assert_eq!(session.window_size, Some((1200, 800)));
    session.update_window_state(Some((1, 2)), Some((3, 4)), false);
    assert_eq!(session.window_position, Some((1, 2)));
    session.update_open_files(vec!["/a.md".to_string()], Some(0));
    assert_eq!(session.active_file_index, Some(0));
    session.clear_recent_files();
    assert!(session.recent_files.is_empty());
    assert_eq!(SessionError::DirectoryError.message(), "Could not determine session directory");
}
