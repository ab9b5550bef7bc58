use statefile::paths::resolve_state_path;
use statefile::store::StateFile;

// The full life of the state file for a tool installed at /apps/tool:
// a save creates data.json next to the binary, a load returns the blob
// verbatim, and after external removal a load is empty again.
#[test]
fn tool_directory_scenario() {
    let path = resolve_state_path("/apps/tool/tool-bin");
    assert_eq!(path, "/apps/tool/data.json");

    let mut file = StateFile::absent();
    file.save(String::from("{\"x\":1}"));
    assert!(file.is_present());
    assert_eq!(file.load(), "{\"x\":1}");

    file.remove();
    assert!(!file.is_present());
    assert_eq!(file.load(), "");
}
