use statefile::store::StateFile;

#[test]
fn round_trip() {
    let mut file = StateFile::absent();
    file.save(String::from("hello world"));
    assert_eq!(file.load(), "hello world");
}

#[test]
fn round_trip_empty_string() {
    let mut file = StateFile::absent();
    file.save(String::new());
    assert_eq!(file.load(), "");
    assert!(file.is_present());
}

#[test]
fn round_trip_embedded_null_and_control_chars() {
    let mut file = StateFile::absent();
    let blob = String::from("a\0b\nc\td\r");
    file.save(blob.clone());
    assert_eq!(file.load(), blob);
}

#[test]
fn first_run_default_is_empty() {
    let file = StateFile::absent();
    assert!(!file.is_present());
    assert_eq!(file.load(), "");
}

#[test]
fn overwrite_keeps_only_the_last_blob() {
    let mut file = StateFile::absent();
    file.save(String::from("first"));
    file.save(String::from("second"));
    let loaded = file.load();
    assert_eq!(loaded, "second");
    assert_ne!(loaded, "first");
    assert_ne!(loaded, "firstsecond");
    assert_ne!(loaded, "secondfirst");
}

#[test]
fn load_is_idempotent() {
    let mut file = StateFile::absent();
    file.save(String::from("stable"));
    let first = file.load();
    let second = file.load();
    assert_eq!(first, second);
}

#[test]
fn load_is_idempotent_on_absent_file() {
    let file = StateFile::absent();
    assert_eq!(file.load(), file.load());
}

#[test]
fn save_creates_the_file() {
    let mut file = StateFile::absent();
    assert!(!file.is_present());
    file.save(String::from("x"));
    assert!(file.is_present());
}

#[test]
fn remove_deletes_the_file() {
    let mut file = StateFile::absent();
    file.save(String::from("x"));
    file.remove();
    assert!(!file.is_present());
    assert_eq!(file.load(), "");
}
