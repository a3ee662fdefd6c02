use cosmic_notebook::file_handler::scanner::{should_include_dir, ScanConfig};

#[test]
fn scan_config_builders() {
    let config = ScanConfig::markdown_only()
        .with_hidden(true)
        .with_max_depth(3)
        .with_extension("txt".to_string())
        .with_extension("md".to_string())
        .with_ignored_dir("out".to_string());
    assert!(config.show_hidden);
    assert_eq!(config.max_depth, 3);
    assert_eq!(config.include_extensions, vec!["md".to_string(), "markdown".to_string(), "txt".to_string()]);
    assert_eq!(config.ignored_dirs.len(), 12);
    assert!(ScanConfig::all_files().include_extensions.is_empty());
}

#[test]
fn directories_to_walk_into() {
    let config = ScanConfig::default();
    assert!(!should_include_dir("node_modules", true, &config));
    assert!(!should_include_dir(".hidden", true, &config));
    assert!(should_include_dir(".hidden", false, &config));
    assert!(should_include_dir("docs", true, &config));
    assert!(should_include_dir(".hidden", true, &config.clone().with_hidden(true)));
}
