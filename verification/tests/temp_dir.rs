use web_browser_lsp::TempDir;

#[test]
fn temp_dir_under_base() {
    let dir = TempDir::new("/tmp", 1234);
    assert_eq!(dir.as_path(), "/tmp/web-browser-lsp-1234");
}

#[test]
fn temp_dir_base_with_trailing_separator() {
    let dir = TempDir::new("/tmp/", 42);
    assert_eq!(dir.as_path(), "/tmp/web-browser-lsp-42");
}

#[test]
fn temp_dir_empty_base() {
    let dir = TempDir::new("", 0);
    assert_eq!(dir.as_path(), "web-browser-lsp-0");
}

#[test]
fn temp_dir_matches_path_join() {
    let base = std::path::Path::new("/var/tmp");
    let dir = TempDir::new("/var/tmp", 987654);
    let joined = base.join(format!("web-browser-lsp-{}", 987654));
    assert_eq!(dir.as_path(), joined.to_str().unwrap());
}

#[test]
fn temp_dirs_of_distinct_processes_differ() {
    let a = TempDir::new("/tmp", 12);
    let b = TempDir::new("/tmp", 123);
    let c = TempDir::new("/tmp", 1);
    assert_ne!(a.as_path(), b.as_path());
    assert_ne!(a.as_path(), c.as_path());
    assert_ne!(b.as_path(), c.as_path());
}
