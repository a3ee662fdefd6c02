use cosmic_notebook::state::{FileEntry, SidebarState};

fn entry(path: &str, name: &str, is_directory: bool, depth: usize) -> FileEntry {
    FileEntry {
        path: path.to_string(),
        name: name.to_string(),
        is_directory,
        depth,
        parent_index: None,
        modified_time: None,
        size_bytes: 0,
    }
}

#[test]
fn test_sidebar_expand_collapse() {
    let mut state = SidebarState::new();
    let path = "/test".to_string();
    state.expand_folder(&path);
    assert!(state.is_expanded(&path));
    state.collapse_folder(&path);
    assert!(!state.is_expanded(&path));
    state.toggle_folder(&path);
    assert!(state.is_expanded(&path));
}

#[test]
fn test_sidebar_filter() {
    let mut state = SidebarState::new();
    state.entries = vec![
        entry("/readme.md", "readme.md", false, 0),
        entry("/config.toml", "config.toml", false, 0),
    ];
    state.set_filter("read".to_string());
    assert_eq!(state.filtered_indices.len(), 1);
    assert_eq!(state.filtered_indices[0], 0);
}

#[test]
fn collapsed_folders_hide_their_contents() {
    let mut state = SidebarState::default();
    state.set_root("/".to_string());
    state.set_entries(vec![
        entry("/docs", "docs", true, 0),
        entry("/docs/a.md", "a.md", false, 1),
        entry("/docs/sub", "sub", true, 1),
        entry("/docs/sub/b.md", "b.md", false, 2),
        entry("/top.md", "Top.md", false, 0),
    ]);
    let shown: Vec<usize> = state.visible_entries().iter().map(|(i, _)| *i).collect();
    assert_eq!(shown, vec![0, 4]);
    state.expand_folder(&"/docs".to_string());
    let shown: Vec<usize> = state.visible_entries().iter().map(|(i, _)| *i).collect();
    assert_eq!(shown, vec![0, 1, 2, 4]);
    state.focus_down();
    assert_eq!(state.focused_index, Some(1));
    state.focus_up();
    assert_eq!(state.focused_index, Some(0));
    state.focus_up();
    assert_eq!(state.focused_index, Some(4));
    assert_eq!(state.focused_entry().unwrap().name, "Top.md");
    state.set_filter("TOP".to_string());
    let shown: Vec<usize> = state.visible_entries().iter().map(|(i, _)| *i).collect();
    assert_eq!(shown, vec![4]);
    state.clear_filter();
    state.set_error("oops".to_string());
    assert_eq!(state.error_message, Some("oops".to_string()));
    state.clear_error();
    state.toggle();
    assert!(!state.visible);
    assert_eq!(state.entry_count(), 5);
    state.clear();
    assert_eq!(state.entry_count(), 0);
    assert!(state.get_entry(0).is_none());
}
