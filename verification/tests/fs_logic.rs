//! The filesystem collaborators' decision logic, on concrete values.

use pixcore_bridge::fsops::{
    check_writable_outcome, default_storage_path_from, ensure_directory_outcome, join_path,
    list_directory_from, write_file_outcome, DirEntryRecord, DirReadReply, EntryMeta, FsError,
};

#[test]
fn join_inserts_one_separator() {
    assert_eq!(join_path("/home/user", "PixcoreStorage"), "/home/user/PixcoreStorage");
}

#[test]
fn join_keeps_an_existing_separator() {
    assert_eq!(join_path("/home/user/", "PixcoreStorage"), "/home/user/PixcoreStorage");
}

#[test]
fn join_of_empty_directory_is_the_name() {
    assert_eq!(join_path("", "PixcoreStorage"), "PixcoreStorage");
}

#[test]
fn storage_path_is_under_the_home_directory() {
    let r = default_storage_path_from(Some("/home/user".to_string()));
    assert_eq!(r, Ok("/home/user/PixcoreStorage".to_string()));
}

#[test]
fn storage_path_without_home_fails() {
    let r = default_storage_path_from(None);
    assert_eq!(r, Err(FsError::HomeUnavailable));
    assert!(!FsError::HomeUnavailable.describe().is_empty());
}

#[test]
fn ensure_directory_succeeds_without_create_error() {
    assert_eq!(ensure_directory_outcome(None), Ok(true));
}

#[test]
fn ensure_directory_reports_a_failed_create() {
    let r = ensure_directory_outcome(Some("permission denied".to_string()));
    assert_eq!(r, Err(FsError::CreateFailed("permission denied".to_string())));
}

#[test]
fn writable_probe_succeeds_when_all_steps_do() {
    assert_eq!(check_writable_outcome(None, None), Ok(true));
}

#[test]
fn writable_probe_reports_a_rejected_write_with_a_reason() {
    let r = check_writable_outcome(None, Some("read-only file system".to_string()));
    assert_eq!(r, Err(FsError::NotWritable("read-only file system".to_string())));
    let reason = r.unwrap_err().describe();
    assert!(!reason.is_empty());
    assert_eq!(reason, "path is not writable: read-only file system");
}

#[test]
fn writable_probe_reports_a_failed_create_first() {
    let r = check_writable_outcome(
        Some("cannot create directory".to_string()),
        None,
    );
    assert_eq!(r, Err(FsError::CreateFailed("cannot create directory".to_string())));
}

#[test]
fn write_succeeds_when_both_steps_do() {
    assert_eq!(write_file_outcome(None, None), Ok(()));
}

#[test]
fn write_reports_a_failed_parent_create() {
    let r = write_file_outcome(Some("disk full".to_string()), None);
    assert_eq!(r, Err(FsError::CreateFailed("disk full".to_string())));
}

#[test]
fn write_reports_a_rejected_byte_write_with_the_operation_named() {
    let r = write_file_outcome(None, Some("permission denied".to_string()));
    assert_eq!(r, Err(FsError::WriteFailed("permission denied".to_string())));
    assert_eq!(
        r.unwrap_err().describe(),
        "writing the file failed: permission denied"
    );
}

#[test]
fn listing_a_nonexistent_path_is_empty_not_a_failure() {
    let r = list_directory_from(DirReadReply::Absent);
    assert!(matches!(r, Ok(v) if v.is_empty()));
}

#[test]
fn listing_an_unreadable_directory_fails_with_the_reason() {
    let r = list_directory_from(DirReadReply::Unreadable("not a directory".to_string()));
    match r {
        Err(FsError::ListFailed(m)) => assert_eq!(m, "not a directory"),
        other => panic!("unexpected outcome: {:?}", other),
    }
}

#[test]
fn listing_keeps_readable_children_in_order_and_skips_the_rest() {
    let records = vec![
        DirEntryRecord {
            name: "a.txt".to_string(),
            path: "/d/a.txt".to_string(),
            meta: Some(EntryMeta { is_directory: false, size: 12 }),
        },
        DirEntryRecord {
            name: "ghost".to_string(),
            path: "/d/ghost".to_string(),
            meta: None,
        },
        DirEntryRecord {
            name: "sub".to_string(),
            path: "/d/sub".to_string(),
            meta: Some(EntryMeta { is_directory: true, size: 0 }),
        },
    ];
    let r = list_directory_from(DirReadReply::Children(records)).unwrap();
    assert_eq!(r.len(), 2);
    assert_eq!(r[0].name, "a.txt");
    assert_eq!(r[0].path, "/d/a.txt");
    assert!(!r[0].is_directory);
    assert_eq!(r[0].size, 12);
    assert_eq!(r[1].name, "sub");
    assert_eq!(r[1].path, "/d/sub");
    assert!(r[1].is_directory);
    assert_eq!(r[1].size, 0);
}

#[test]
fn listing_of_no_children_is_empty() {
    let r = list_directory_from(DirReadReply::Children(Vec::new())).unwrap();
    assert!(r.is_empty());
}
