//! The scoped-removal guard's persist/finalize behaviour, driven the way an
//! unverified driver would: the driver owns the (here simulated) file and
//! performs a removal exactly when the guard asks for one.

use atomic_download::guard::DropRemovePath;

#[test]
fn drop_remove_tokio_file_sanity_check() {
    let file_path = "test_tmp/test.txt";
    let file_data = b"testing 1 2 3";

    // a fresh guard asks for removal: the file must not survive
    let mut file: Option<Vec<u8>> = Some(file_data.to_vec());
    let guard = DropRemovePath::new(String::from(file_path));
    if guard.should_remove() {
        file.take();
    }
    let removed = guard.try_drop(Some(true)).expect("failed to close file");
    assert!(removed);
    let exists = file.is_some();
    assert!(!exists, "nonpersisted file exists");

    // a persisted guard asks for nothing: the file must survive
    let mut file: Option<Vec<u8>> = Some(file_data.to_vec());
    let mut guard = DropRemovePath::new(String::from(file_path));
    guard.persist();
    if guard.should_remove() {
        file.take();
    }
    let removed = guard.try_drop(None).expect("failed to close file");
    assert!(!removed);
    let exists = file.is_some();
    assert!(exists, "persisted file does not exist");
}

#[test]
fn persist_then_finalize_never_removes() {
    let mut guard = DropRemovePath::new(String::from("kept.bin"));
    guard.persist();
    assert!(!guard.should_remove());
    // persist is idempotent
    guard.persist();
    assert!(!guard.should_remove());
    assert_eq!(guard.try_drop(None), Ok(false));
}

#[test]
fn finalize_without_persist_always_attempts_removal() {
    let guard = DropRemovePath::new(String::from("doomed.bin"));
    assert!(guard.should_remove());
    assert_eq!(guard.try_drop(Some(true)), Ok(true));
}

#[test]
fn failed_removal_hands_the_guard_back_unchanged() {
    let guard = DropRemovePath::new(String::from("stubborn.bin"));
    let mut guard = match guard.try_drop(Some(false)) {
        Err(g) => g,
        Ok(_) => panic!("a failed removal must return the guard"),
    };
    assert_eq!(guard.path().as_str(), "stubborn.bin");
    assert!(guard.should_remove());
    // the caller persists it so the removal is not uselessly retried
    guard.persist();
    assert_eq!(guard.try_drop(None), Ok(false));
}

#[test]
fn guard_records_its_path() {
    let guard = DropRemovePath::new(String::from("dir/file.tar.gz.part"));
    assert_eq!(guard.path().as_str(), "dir/file.tar.gz.part");
    assert!(guard.should_remove());
}
