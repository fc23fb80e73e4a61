use docstore::error::StoreError;
use docstore::location::resolve_location;
use docstore::store::{load_outcome, save_outcome, DocumentStore};
use docstore::volume::{FileState, Volume};

fn open_fresh(dir: &str) -> DocumentStore {
    DocumentStore::open(Some(String::from(dir)), Volume::new()).unwrap()
}

fn open_with(dir: &str, volume: Volume) -> DocumentStore {
    DocumentStore::open(Some(String::from(dir)), volume).unwrap()
}

#[test]
fn fresh_store_load_returns_empty_default() {
    // Scenario: fresh environment, no data directory exists yet.
    let mut store = open_fresh("/data/app");
    assert_eq!(store.load().unwrap(), "[]");
}

#[test]
fn save_then_load_round_trip() {
    let mut store = open_fresh("/data/app");
    let confirmation = store.save(String::from("[{\"name\":\"Alice\"}]")).unwrap();
    assert!(confirmation.contains("/data/app/skating_data.json"));
    assert_eq!(store.load().unwrap(), "[{\"name\":\"Alice\"}]");
}

#[test]
fn confirmation_carries_resolved_path() {
    let mut store = open_fresh("/data/app");
    let confirmation = store.save(String::from("[]")).unwrap();
    assert_eq!(confirmation, "Data saved to /data/app/skating_data.json");
}

#[test]
fn repeated_save_is_idempotent() {
    let mut store = open_fresh("/data/app");
    store.save(String::from("[\"x\"]")).unwrap();
    store.save(String::from("[\"x\"]")).unwrap();
    assert_eq!(store.load().unwrap(), "[\"x\"]");
}

#[test]
fn second_save_replaces_first() {
    let mut store = open_fresh("/data/app");
    store.save(String::from("[1,2,3]")).unwrap();
    store.save(String::from("[4,5]")).unwrap();
    assert_eq!(store.load().unwrap(), "[4,5]");
}

#[test]
fn existing_directory_reused_without_loss() {
    // The data directory already exists and holds a document: repeated
    // operations neither fail nor disturb what is stored.
    let volume = Volume {
        dir_exists: true,
        file: FileState::Present(String::from("[7]")),
        dir_fault: None,
        write_fault: None,
    };
    let mut store = open_with("/data/app", volume);
    assert_eq!(store.load().unwrap(), "[7]");
    assert_eq!(store.load().unwrap(), "[7]");
}

#[test]
fn write_failure_returns_io_error() {
    // Scenario: the write is refused, as by a read-only target directory.
    let volume = Volume {
        dir_exists: true,
        file: FileState::Absent,
        dir_fault: None,
        write_fault: Some(String::from("read-only file system")),
    };
    let mut store = open_with("/data/app", volume);
    let err = store.save(String::from("[1]")).unwrap_err();
    assert!(matches!(err, StoreError::IOError(_)));
    assert!(!err.message().is_empty());
    assert_eq!(err.message(), "Failed to save data: read-only file system");
}

#[test]
fn unreadable_file_returns_io_error() {
    // Scenario: the document exists but is corrupted/unreadable. The load
    // must fail, not fall back to the empty default.
    let volume = Volume {
        dir_exists: true,
        file: FileState::Unreadable(String::from("stream did not contain valid UTF-8")),
        dir_fault: None,
        write_fault: None,
    };
    let mut store = open_with("/data/app", volume);
    let result = store.load();
    let err = result.unwrap_err();
    assert!(matches!(err, StoreError::IOError(_)));
    assert_eq!(
        err.message(),
        "Failed to load data: stream did not contain valid UTF-8"
    );
}

#[test]
fn missing_host_directory_is_storage_unavailable() {
    let err = DocumentStore::open(None, Volume::new()).unwrap_err();
    assert!(matches!(err, StoreError::StorageUnavailable(_)));
    assert_eq!(err.message(), "Failed to get app data directory");
}

#[test]
fn directory_creation_failure_is_io_error() {
    let volume = Volume {
        dir_exists: false,
        file: FileState::Absent,
        dir_fault: Some(String::from("permission denied")),
        write_fault: None,
    };
    let mut store = open_with("/data/app", volume);
    let err = store.save(String::from("[1]")).unwrap_err();
    assert!(matches!(err, StoreError::IOError(_)));
    assert_eq!(
        err.message(),
        "Failed to create app data directory: permission denied"
    );
}

#[test]
fn file_path_joins_directory_and_fixed_name() {
    let location = resolve_location(Some(String::from("/home/user/.local/share/app"))).unwrap();
    assert_eq!(
        location.file_path(),
        "/home/user/.local/share/app/skating_data.json"
    );
}

#[test]
fn store_reports_resolved_file_path() {
    let store = open_fresh("/data/app");
    assert_eq!(store.file_path(), "/data/app/skating_data.json");
}

#[test]
fn resolve_location_keeps_host_directory() {
    let location = resolve_location(Some(String::from("/tmp/area"))).unwrap();
    assert_eq!(location.dir, "/tmp/area");
}

#[test]
fn resolve_location_without_host_directory_fails() {
    let err = resolve_location(None).unwrap_err();
    assert!(matches!(err, StoreError::StorageUnavailable(_)));
}

#[test]
fn load_outcome_of_absent_file_is_empty_default() {
    assert_eq!(load_outcome(FileState::Absent).unwrap(), "[]");
}

#[test]
fn load_outcome_of_present_file_is_its_text() {
    let found = FileState::Present(String::from("[\"a\",\"b\"]"));
    assert_eq!(load_outcome(found).unwrap(), "[\"a\",\"b\"]");
}

#[test]
fn load_outcome_of_unreadable_file_is_io_error() {
    let found = FileState::Unreadable(String::from("bad sector"));
    let err = load_outcome(found).unwrap_err();
    assert!(matches!(err, StoreError::IOError(_)));
    assert_eq!(err.message(), "Failed to load data: bad sector");
}

#[test]
fn save_outcome_of_successful_write_confirms_with_path() {
    let location = resolve_location(Some(String::from("/data/app"))).unwrap();
    let confirmation = save_outcome(&location, Ok(())).unwrap();
    assert_eq!(confirmation, "Data saved to /data/app/skating_data.json");
}

#[test]
fn save_outcome_of_failed_write_is_io_error() {
    let location = resolve_location(Some(String::from("/data/app"))).unwrap();
    let err = save_outcome(&location, Err(String::from("disk full"))).unwrap_err();
    assert!(matches!(err, StoreError::IOError(_)));
    assert_eq!(err.message(), "Failed to save data: disk full");
}
