use statefile::paths::resolve_state_path;

#[test]
fn resolve_typical_path() {
    assert_eq!(resolve_state_path("/apps/tool/tool-bin"), "/apps/tool/data.json");
}

#[test]
fn resolve_nested_path() {
    assert_eq!(
        resolve_state_path("/home/user/.local/bin/editor"),
        "/home/user/.local/bin/data.json"
    );
}

#[test]
fn resolve_path_in_root() {
    assert_eq!(resolve_state_path("/tool-bin"), "/data.json");
}

#[test]
fn resolve_bare_file_name() {
    assert_eq!(resolve_state_path("tool-bin"), "data.json");
}

#[test]
fn resolve_empty_path() {
    assert_eq!(resolve_state_path(""), "data.json");
}

#[test]
fn resolve_keeps_trailing_separator_directory() {
    assert_eq!(resolve_state_path("/apps/tool/"), "/apps/tool/data.json");
}

#[test]
fn resolve_is_recomputed_per_call() {
    assert_eq!(resolve_state_path("/a/first"), "/a/data.json");
    assert_eq!(resolve_state_path("/b/second"), "/b/data.json");
}
