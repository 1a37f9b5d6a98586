use std::io;
use std::path::PathBuf;

use bllib::state_store::{get_at, read_state, remove_at, save_at, write_state, DeviceStates};
use bllib::CliError;

fn scratch_path() -> PathBuf {
    PathBuf::from("/tmp/blctl-test.toml")
}

/// Runs `save_at` on a file with `contents` (`None`: no file) and gives the
/// new contents.
fn saved(contents: Option<String>, device_id: &str, value: u32) -> String {
    save_at(Ok(contents), scratch_path(), device_id, value).unwrap()
}

fn lookup(contents: Option<String>, device_id: &str) -> Option<u32> {
    get_at(Ok(contents), scratch_path(), device_id).unwrap()
}

#[test]
fn get_returns_none_when_file_is_missing() {
    assert_eq!(lookup(None, "acpi:intel_backlight"), None);
}

#[test]
fn save_then_get_round_trips() {
    let file = saved(None, "acpi:intel_backlight", 42);
    assert_eq!(lookup(Some(file), "acpi:intel_backlight"), Some(42));
}

#[test]
fn save_does_not_disturb_other_devices() {
    let file = saved(None, "acpi:intel_backlight", 42);
    let file = saved(Some(file), "acpi:other", 7);
    assert_eq!(lookup(Some(file.clone()), "acpi:intel_backlight"), Some(42));
    assert_eq!(lookup(Some(file), "acpi:other"), Some(7));
}

#[test]
fn save_overwrites_previous_value_for_same_device() {
    let file = saved(None, "acpi:intel_backlight", 42);
    let file = saved(Some(file), "acpi:intel_backlight", 99);
    assert_eq!(lookup(Some(file), "acpi:intel_backlight"), Some(99));
}

#[test]
fn remove_deletes_the_entry() {
    let file = saved(None, "acpi:intel_backlight", 42);
    let file = remove_at(Ok(Some(file)), scratch_path(), "acpi:intel_backlight")
        .unwrap()
        .unwrap();
    assert_eq!(lookup(Some(file), "acpi:intel_backlight"), None);
}

#[test]
fn remove_is_a_no_op_when_file_is_missing() {
    let written = remove_at(Ok(None), scratch_path(), "acpi:intel_backlight").unwrap();
    assert!(written.is_none());
}

#[test]
fn remove_is_a_no_op_when_device_is_not_saved() {
    let file = saved(None, "acpi:other", 7);
    let written = remove_at(Ok(Some(file.clone())), scratch_path(), "acpi:intel_backlight").unwrap();
    assert!(written.is_none());
    assert_eq!(lookup(Some(file), "acpi:other"), Some(7));
}

#[test]
fn unreadable_file_is_a_read_error() {
    let failure = io::Error::new(io::ErrorKind::PermissionDenied, "denied");
    let err = get_at(Err(failure), scratch_path(), "acpi:intel_backlight").unwrap_err();
    assert!(matches!(err, CliError::StateRead { ref path, .. } if *path == scratch_path()));
}

#[test]
fn malformed_file_is_a_parse_error() {
    let err = save_at(Ok(Some("not = [toml".to_string())), scratch_path(), "x", 1).unwrap_err();
    assert!(matches!(err, CliError::StateParse { ref path, .. } if *path == scratch_path()));
    let err = get_at(Ok(Some("name = \"text\"".to_string())), scratch_path(), "name").unwrap_err();
    assert!(matches!(err, CliError::StateParse { .. }));
}

#[test]
fn file_text_is_toml_keyed_by_device() {
    let file = saved(None, "acpi:intel_backlight", 42);
    assert_eq!(file, "\"acpi:intel_backlight\" = 42\n");
    let file = saved(Some("b = 2\na = 1\n".to_string()), "c", 3);
    assert_eq!(file, "a = 1\nb = 2\nc = 3\n");
}

#[test]
fn device_states_table_operations() {
    let mut states = DeviceStates::new();
    assert_eq!(states.get("a"), None);
    states.insert("a", 1);
    states.insert("b", 2);
    states.insert("a", 3);
    assert_eq!(states.get("a"), Some(3));
    assert_eq!(states.get("b"), Some(2));
    assert!(states.remove("a"));
    assert!(!states.remove("a"));
    assert_eq!(states.get("a"), None);
    assert_eq!(states.get("b"), Some(2));
}

#[test]
fn reading_and_writing_whole_state() {
    let states = read_state(Ok(Some("x = 5\n".to_string())), scratch_path()).unwrap();
    assert_eq!(states.get("x"), Some(5));
    assert_eq!(write_state(&states).unwrap(), "x = 5\n");
    let empty = read_state(Ok(None), scratch_path()).unwrap();
    assert_eq!(write_state(&empty).unwrap(), "");
}

#[test]
fn fixed_state_file_functions() {
    let file = bllib::state_store::save(Ok(None), "sysfs:panel", 10).unwrap();
    assert_eq!(bllib::state_store::get(Ok(Some(file.clone())), "sysfs:panel").unwrap(), Some(10));
    let after = bllib::state_store::remove(Ok(Some(file)), "sysfs:panel").unwrap().unwrap();
    assert_eq!(bllib::state_store::get(Ok(Some(after)), "sysfs:panel").unwrap(), None);
    assert_eq!(bllib::state_store::state_file_path(), PathBuf::from("/tmp/blctl.toml"));
}

#[test]
fn parse_error_is_the_one_reading_gives() {
    let text = "not = [toml".to_string();
    let from_read = match read_state(Ok(Some(text.clone())), scratch_path()) {
        Err(CliError::StateParse { source, .. }) => source,
        other => panic!("unexpected {other:?}"),
    };
    let from_save = match save_at(Ok(Some(text.clone())), scratch_path(), "x", 1) {
        Err(CliError::StateParse { source, .. }) => source,
        other => panic!("unexpected {other:?}"),
    };
    assert_eq!(from_read, from_save);
    assert_eq!(from_read, toml::from_str::<std::collections::BTreeMap<String, u32>>(&text).unwrap_err());
}
