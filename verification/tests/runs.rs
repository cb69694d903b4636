use file_manager::config::{FileOperation, OperationType, RateLimit};
use file_manager::events::{Action, EntryKind, Event, Phase, SourceKind, WalkEntry};
use file_manager::file_ops::{FileEntry, FileManager, IoErrorKind, IoFailure, OperationResult};
use file_manager::run::OperationRun;

fn no_limit() -> RateLimit {
    RateLimit { enabled: false, bytes_per_second: None, megabytes_per_minute: None }
}

fn operation(name: &str, origin: &str, destination: &str, kind: OperationType) -> FileOperation {
    FileOperation {
        name: name.to_string(),
        origin: origin.to_string(),
        destination: destination.to_string(),
        operation_type: kind,
        rate_limit: no_limit(),
    }
}

fn failure(kind: IoErrorKind, words: &str) -> IoFailure {
    IoFailure { kind, message: words.to_string() }
}

fn entry(path: &str, counterpart: Option<&str>, kind: EntryKind) -> Event {
    Event::Entry(Ok(WalkEntry {
        path: path.to_string(),
        counterpart: counterpart.map(|p| p.to_string()),
        kind,
    }))
}

fn copy_of(source: &str, target: &str) -> Action {
    Action::CopyFile { source: source.to_string(), target: target.to_string(), throttled: false }
}

fn verify_of(source: &str, target: &str) -> Action {
    Action::Verify { source: source.to_string(), target: target.to_string() }
}

fn step(run: &mut OperationRun, event: Event, now: u64) -> Action {
    assert!(run.advance(event, now).is_ok());
    run.pending()
}

fn lines(result: &OperationResult) -> Vec<&str> {
    result.details.iter().map(|s| s.as_str()).collect()
}

fn mutates(action: &Action) -> bool {
    matches!(
        action,
        Action::CreateDirectories { .. }
            | Action::CopyFile { .. }
            | Action::Discard { .. }
            | Action::RemoveFile { .. }
            | Action::RemoveTree { .. }
            | Action::Rename { .. }
    )
}

#[test]
fn a_run_opens_with_the_header_of_its_log() {
    let op = operation("Backup", "a.txt", "out/a.txt", OperationType::Copy);
    let run = FileManager::execute_single_operation(&op, &no_limit(), 42);
    assert_eq!(run.phase(), Phase::Source);
    assert!(!run.is_finished());
    assert_eq!(run.pending(), Action::ProbeSource { path: "a.txt".to_string() });
    let r = run.result();
    assert_eq!(r.operation_name, "Backup");
    assert_eq!(r.source, "a.txt");
    assert_eq!(r.destination, "out/a.txt");
    assert_eq!(r.operation_type, OperationType::Copy);
    assert!(!r.success);
    assert!(!r.hash_verified);
    assert_eq!(r.error_message, None);
    assert_eq!(r.files_processed, 0);
    assert_eq!(r.total_size, 0);
    assert_eq!(r.start_time, 42);
    assert_eq!(r.end_time, 42);
    assert!(r.file_list.is_empty());
    assert_eq!(
        lines(r),
        vec![
            "Starting operation: Backup",
            "  Type: Copy",
            "  Source: a.txt",
            "  Destination: out/a.txt",
        ]
    );
}

#[test]
fn copy_of_a_file_into_a_directory_that_is_not_there_yet() {
    let op = operation("Backup", "a.txt", "out/sub/a.txt", OperationType::Copy);
    let mut run = OperationRun::open(&op, &no_limit(), 1);
    let a = step(&mut run, Event::Source(SourceKind::File(11)), 2);
    assert_eq!(a, Action::ProbeParent { destination: "out/sub/a.txt".to_string() });
    let a = step(&mut run, Event::Parent(Some("out/sub".to_string())), 3);
    assert_eq!(a, Action::CreateDirectories { path: "out/sub".to_string() });
    let a = step(&mut run, Event::Completed(Ok(())), 4);
    assert_eq!(a, copy_of("a.txt", "out/sub/a.txt"));
    let a = step(&mut run, Event::Copied(Ok(11)), 5);
    assert_eq!(a, verify_of("a.txt", "out/sub/a.txt"));
    let a = step(&mut run, Event::Verified(Ok(true)), 6);
    assert_eq!(a, Action::Finish);
    assert!(run.is_finished());
    let r = run.into_result();
    assert!(r.success);
    assert!(r.hash_verified);
    assert_eq!(r.error_message, None);
    assert_eq!(r.files_processed, 1);
    assert_eq!(r.total_size, 11);
    assert_eq!(r.start_time, 4);
    assert_eq!(r.end_time, 6);
    assert_eq!(
        r.file_list,
        vec![FileEntry {
            source_path: "a.txt".to_string(),
            destination_path: "out/sub/a.txt".to_string(),
            size: 11,
            hash_verified: true,
            success: true,
            error_message: None,
        }]
    );
    assert_eq!(
        lines(&r),
        vec![
            "Starting operation: Backup",
            "  Type: Copy",
            "  Source: a.txt",
            "  Destination: out/sub/a.txt",
            "  Source is a file",
            "  Creating parent directory: out/sub",
            "  Parent directory created successfully",
            "  File size: 11 bytes",
            "  Starting file copy...",
            "  Copy completed: 11 bytes copied",
            "  Verifying file integrity...",
            "  Verification successful: Files match",
        ]
    );
}

#[test]
fn copy_whose_destination_does_not_match_is_removed() {
    let op = operation("Backup", "a.txt", "b.txt", OperationType::Copy);
    let mut run = OperationRun::open(&op, &no_limit(), 1);
    step(&mut run, Event::Source(SourceKind::File(11)), 2);
    step(&mut run, Event::Parent(None), 3);
    step(&mut run, Event::Copied(Ok(11)), 4);
    let a = step(&mut run, Event::Verified(Ok(false)), 5);
    assert_eq!(a, Action::Discard { path: "b.txt".to_string() });
    assert!(!run.is_finished());
    let a = step(&mut run, Event::Completed(Ok(())), 6);
    assert_eq!(a, Action::Finish);
    let r = run.into_result();
    assert!(!r.success);
    assert!(!r.hash_verified);
    assert_eq!(
        r.error_message.as_deref(),
        Some("Hash verification failed - files are different")
    );
    assert_eq!(r.files_processed, 1);
    assert_eq!(r.total_size, 11);
    assert_eq!(
        r.file_list,
        vec![FileEntry {
            source_path: "a.txt".to_string(),
            destination_path: "b.txt".to_string(),
            size: 11,
            hash_verified: false,
            success: false,
            error_message: Some("Hash verification failed - files are different".to_string()),
        }]
    );
    let log = lines(&r);
    assert_eq!(
        log[log.len() - 3..],
        [
            "  Verifying file integrity...",
            "ERROR: Hash verification failed - files are different",
            "  Cleaned up failed copy",
        ]
    );
}

#[test]
fn copy_that_cannot_be_verified_is_removed_whether_or_not_removal_works() {
    let op = operation("Backup", "a.txt", "b.txt", OperationType::Copy);
    let mut run = OperationRun::open(&op, &no_limit(), 1);
    step(&mut run, Event::Source(SourceKind::File(11)), 2);
    step(&mut run, Event::Parent(None), 3);
    step(&mut run, Event::Copied(Ok(9)), 4);
    let a = step(
        &mut run,
        Event::Verified(Err(failure(IoErrorKind::Other, "Input/output error (os error 5)"))),
        5,
    );
    assert_eq!(a, Action::Discard { path: "b.txt".to_string() });
    let a = step(
        &mut run,
        Event::Completed(Err(failure(IoErrorKind::PermissionDenied, "denied"))),
        6,
    );
    assert_eq!(a, Action::Finish);
    let r = run.into_result();
    assert!(!r.success);
    assert!(!r.hash_verified);
    assert_eq!(
        r.error_message.as_deref(),
        Some("Verification error: Input/output error (os error 5)")
    );
    assert_eq!(r.file_list.len(), 1);
    assert_eq!(r.file_list[0].size, 9);
    assert!(!r.file_list[0].success);
    assert_eq!(r.file_list[0].error_message, r.error_message);
}

#[test]
fn copy_that_fails_is_not_verified_and_gets_advice() {
    let kinds = [
        (IoErrorKind::PermissionDenied, Some("  Permission denied - check file permissions")),
        (IoErrorKind::NotFound, Some("  File not found - check path")),
        (IoErrorKind::AlreadyExists, Some("  Destination already exists")),
        (IoErrorKind::CrossesDevices, None),
        (IoErrorKind::InvalidInput, None),
        (IoErrorKind::Other, None),
    ];
    for (kind, advice) in kinds {
        let op = operation("Backup", "a.txt", "b.txt", OperationType::Copy);
        let mut run = OperationRun::open(&op, &no_limit(), 1);
        step(&mut run, Event::Source(SourceKind::File(11)), 2);
        step(&mut run, Event::Parent(None), 3);
        let a = step(&mut run, Event::Copied(Err(failure(kind, "it broke"))), 4);
        assert_eq!(a, Action::Finish);
        let r = run.into_result();
        assert!(!r.success);
        assert!(!r.hash_verified);
        let message = "Copy failed: it broke (from a.txt to b.txt)";
        assert_eq!(r.error_message.as_deref(), Some(message));
        assert_eq!(r.total_size, 11);
        assert_eq!(
            r.file_list,
            vec![FileEntry {
                source_path: "a.txt".to_string(),
                destination_path: "b.txt".to_string(),
                size: 11,
                hash_verified: false,
                success: false,
                error_message: Some(message.to_string()),
            }]
        );
        let log = lines(&r);
        match advice {
            Some(line) => {
                assert_eq!(log[log.len() - 1], line);
                assert_eq!(log[log.len() - 2], "ERROR: Copy failed: it broke (from a.txt to b.txt)");
            }
            None => {
                assert_eq!(log[log.len() - 1], "ERROR: Copy failed: it broke (from a.txt to b.txt)")
            }
        }
    }
}

#[test]
fn missing_source_ends_the_run_before_anything_is_touched() {
    let op = operation("Backup", "gone.txt", "out/b.txt", OperationType::Copy);
    let mut run = OperationRun::open(&op, &no_limit(), 1);
    assert!(!mutates(&run.pending()));
    let a = step(&mut run, Event::Source(SourceKind::Missing), 9);
    assert_eq!(a, Action::Finish);
    let r = run.into_result();
    assert!(!r.success);
    assert!(!r.hash_verified);
    assert_eq!(r.error_message.as_deref(), Some("Source 'gone.txt' does not exist"));
    assert_eq!(r.files_processed, 0);
    assert!(r.file_list.is_empty());
    assert_eq!(r.start_time, 1);
    assert_eq!(r.end_time, 9);
    assert_eq!(lines(&r)[4], "ERROR: Source 'gone.txt' does not exist");
    assert_eq!(r.details.len(), 5);
}

#[test]
fn source_that_is_neither_file_nor_directory_ends_the_run() {
    let op = operation("Backup", "/dev/null", "b", OperationType::Move);
    let mut run = OperationRun::open(&op, &no_limit(), 1);
    let a = step(&mut run, Event::Source(SourceKind::Other), 2);
    assert_eq!(a, Action::Finish);
    let r = run.into_result();
    assert!(!r.success);
    assert_eq!(
        r.error_message.as_deref(),
        Some("Source '/dev/null' is not a valid file or directory")
    );
    assert_eq!(r.operation_type, OperationType::Move);
}

#[test]
fn parent_that_cannot_be_made_ends_the_run_before_the_transfer() {
    let op = operation("Backup", "a.txt", "ro/sub/b.txt", OperationType::Copy);
    let mut run = OperationRun::open(&op, &no_limit(), 1);
    step(&mut run, Event::Source(SourceKind::File(3)), 2);
    step(&mut run, Event::Parent(Some("ro/sub".to_string())), 3);
    let a = step(
        &mut run,
        Event::Completed(Err(failure(IoErrorKind::PermissionDenied, "Permission denied (os error 13)"))),
        4,
    );
    assert_eq!(a, Action::Finish);
    let r = run.into_result();
    assert!(!r.success);
    assert_eq!(
        r.error_message.as_deref(),
        Some("Failed to create destination directory 'ro/sub': Permission denied (os error 13)")
    );
    assert_eq!(r.files_processed, 0);
    assert_eq!(r.start_time, 1);
    assert_eq!(r.end_time, 4);
    assert!(r.file_list.is_empty());
}

#[test]
fn directory_copy_with_one_file_gone_goes_on_and_fails_as_a_whole() {
    let op = operation("Tree", "src", "dst", OperationType::Copy);
    let mut run = OperationRun::open(&op, &no_limit(), 1);
    step(&mut run, Event::Source(SourceKind::Directory), 2);
    let a = step(&mut run, Event::Parent(None), 3);
    assert_eq!(a, Action::CreateDirectories { path: "dst".to_string() });
    let a = step(&mut run, Event::Completed(Ok(())), 4);
    assert_eq!(a, Action::NextEntry { root: "src".to_string() });
    // the root itself is passed over
    let a = step(&mut run, entry("src", Some("dst"), EntryKind::Directory), 5);
    assert_eq!(a, Action::NextEntry { root: "src".to_string() });
    // first file: fine
    let a = step(&mut run, entry("src/a", Some("dst/a"), EntryKind::File(Some(10))), 6);
    assert_eq!(a, copy_of("src/a", "dst/a"));
    let a = step(&mut run, Event::Copied(Ok(10)), 7);
    assert_eq!(a, verify_of("src/a", "dst/a"));
    let a = step(&mut run, Event::Verified(Ok(true)), 8);
    assert_eq!(a, Action::NextEntry { root: "src".to_string() });
    // second file: gone by the time it is copied
    step(&mut run, entry("src/b", Some("dst/b"), EntryKind::File(Some(20))), 9);
    let a = step(
        &mut run,
        Event::Copied(Err(failure(IoErrorKind::NotFound, "No such file or directory (os error 2)"))),
        10,
    );
    assert_eq!(a, Action::NextEntry { root: "src".to_string() });
    // third file: fine
    step(&mut run, entry("src/c", Some("dst/c"), EntryKind::File(Some(30))), 11);
    step(&mut run, Event::Copied(Ok(30)), 12);
    step(&mut run, Event::Verified(Ok(true)), 13);
    let a = step(&mut run, Event::WalkEnd, 14);
    assert_eq!(a, Action::Finish);
    let r = run.into_result();
    assert!(!r.success);
    assert!(r.hash_verified);
    assert_eq!(r.files_processed, 3);
    assert_eq!(r.total_size, 60);
    assert_eq!(r.file_list.len(), 3);
    assert_eq!(r.file_list.iter().filter(|e| e.success).count(), 2);
    assert_eq!(r.file_list.iter().filter(|e| !e.success).count(), 1);
    let message = "Failed to copy src/b to dst/b: No such file or directory (os error 2)";
    assert_eq!(r.error_message.as_deref(), Some(message));
    assert_eq!(
        r.file_list[1],
        FileEntry {
            source_path: "src/b".to_string(),
            destination_path: "dst/b".to_string(),
            size: 20,
            hash_verified: false,
            success: false,
            error_message: Some(message.to_string()),
        }
    );
    assert_eq!(r.start_time, 3);
    assert_eq!(r.end_time, 14);
    assert_eq!(
        lines(&r)[4..],
        [
            "  Source is a directory",
            "  Starting directory copy...",
            "  Destination directory created",
            "  Copying file 1/?: src/a",
            "    Copied 10 bytes",
            "    Verification successful",
            "  Copying file 2/?: src/b",
            "ERROR: Failed to copy src/b to dst/b: No such file or directory (os error 2)",
            "  Copying file 3/?: src/c",
            "    Copied 30 bytes",
            "    Verification successful",
            "  Total files processed: 3",
            "  Total size: 60 bytes",
        ]
    );
}

#[test]
fn directory_copy_joins_its_failures() {
    let op = operation("Tree", "src", "dst", OperationType::Copy);
    let mut run = OperationRun::open(&op, &no_limit(), 1);
    step(&mut run, Event::Source(SourceKind::Directory), 2);
    step(&mut run, Event::Parent(None), 3);
    step(&mut run, Event::Completed(Ok(())), 4);
    // an entry that could not be read
    let a = step(&mut run, Event::Entry(Err("IO error for src/x".to_string())), 5);
    assert_eq!(a, Action::NextEntry { root: "src".to_string() });
    // a directory that cannot be mirrored
    let a = step(&mut run, entry("src/d", Some("dst/d"), EntryKind::Directory), 6);
    assert_eq!(a, Action::CreateDirectories { path: "dst/d".to_string() });
    step(&mut run, Event::Completed(Err(failure(IoErrorKind::Other, "no space"))), 7);
    // a directory that can
    step(&mut run, entry("src/e", Some("dst/e"), EntryKind::Directory), 8);
    step(&mut run, Event::Completed(Ok(())), 9);
    // a file whose copy does not match
    step(&mut run, entry("src/e/f", Some("dst/e/f"), EntryKind::File(None)), 10);
    step(&mut run, Event::Copied(Ok(4)), 11);
    let a = step(&mut run, Event::Verified(Ok(false)), 12);
    assert_eq!(a, Action::Discard { path: "dst/e/f".to_string() });
    let a = step(&mut run, Event::Completed(Ok(())), 13);
    assert_eq!(a, Action::NextEntry { root: "src".to_string() });
    // a file whose copy cannot be verified
    step(&mut run, entry("src/g", Some("dst/g"), EntryKind::File(Some(8))), 14);
    step(&mut run, Event::Copied(Ok(8)), 15);
    let a = step(&mut run, Event::Verified(Err(failure(IoErrorKind::Other, "read error"))), 16);
    assert_eq!(a, Action::Discard { path: "dst/g".to_string() });
    step(&mut run, Event::Completed(Ok(())), 17);
    // something that is neither file nor directory, and an entry outside the root
    let a = step(&mut run, entry("src/link", Some("dst/link"), EntryKind::Other), 18);
    assert_eq!(a, Action::NextEntry { root: "src".to_string() });
    step(&mut run, entry("elsewhere/h", None, EntryKind::File(Some(1))), 19);
    step(&mut run, Event::WalkEnd, 20);
    let r = run.into_result();
    assert!(!r.success);
    assert!(!r.hash_verified);
    assert_eq!(r.files_processed, 2);
    assert_eq!(r.total_size, 8);
    assert_eq!(
        r.error_message.as_deref(),
        Some(
            "Error reading directory entry: IO error for src/x; \
             Failed to create directory dst/d: no space; \
             Hash verification failed for: src/e/f; \
             Verification error for src/g: read error; \
             Failed to get relative path for: elsewhere/h"
        )
    );
    assert_eq!(
        r.file_list,
        vec![
            FileEntry {
                source_path: "src/e/f".to_string(),
                destination_path: "dst/e/f".to_string(),
                size: 4,
                hash_verified: false,
                success: false,
                error_message: Some("Hash verification failed".to_string()),
            },
            FileEntry {
                source_path: "src/g".to_string(),
                destination_path: "dst/g".to_string(),
                size: 8,
                hash_verified: false,
                success: false,
                error_message: Some("Verification error: read error".to_string()),
            },
        ]
    );
    assert_eq!(
        lines(&r)[5..],
        [
            "  Starting directory copy...",
            "  Destination directory created",
            "WARNING: Error reading entry: IO error for src/x",
            "ERROR creating directory: Failed to create directory dst/d: no space",
            "  Created directory: dst/e",
            "  Copying file 1/?: src/e/f",
            "    Copied 4 bytes",
            "ERROR: Hash verification failed for: src/e/f",
            "    Cleaned up failed copy",
            "  Copying file 2/?: src/g",
            "    Copied 8 bytes",
            "ERROR: Verification error for src/g: read error",
            "    Cleaned up failed copy",
            "WARNING: Failed to get relative path for: elsewhere/h",
            "  Total files processed: 2",
            "  Total size: 8 bytes",
        ]
    );
}

#[test]
fn directory_copy_of_an_empty_tree_succeeds() {
    let op = operation("Tree", "src", "dst", OperationType::Copy);
    let mut run = OperationRun::open(&op, &no_limit(), 1);
    step(&mut run, Event::Source(SourceKind::Directory), 2);
    step(&mut run, Event::Parent(None), 3);
    step(&mut run, Event::Completed(Ok(())), 4);
    step(&mut run, entry("src", Some("dst"), EntryKind::Directory), 5);
    step(&mut run, Event::WalkEnd, 6);
    let r = run.into_result();
    assert!(r.success);
    assert!(r.hash_verified);
    assert_eq!(r.error_message, None);
    assert_eq!(r.files_processed, 0);
    assert!(r.file_list.is_empty());
}

#[test]
fn directory_that_cannot_be_mirrored_is_a_warning_and_no_failure() {
    let op = operation("Tree", "src", "dst", OperationType::Copy);
    let mut run = OperationRun::open(&op, &no_limit(), 1);
    step(&mut run, Event::Source(SourceKind::Directory), 2);
    step(&mut run, Event::Parent(None), 3);
    step(&mut run, Event::Completed(Ok(())), 4);
    step(&mut run, entry("src", Some("dst"), EntryKind::Directory), 5);
    let a = step(&mut run, entry("src/d", Some("dst/d"), EntryKind::Directory), 6);
    assert_eq!(a, Action::CreateDirectories { path: "dst/d".to_string() });
    let a = step(&mut run, Event::Completed(Err(failure(IoErrorKind::Other, "no space"))), 7);
    assert_eq!(a, Action::NextEntry { root: "src".to_string() });
    step(&mut run, entry("src/a", Some("dst/a"), EntryKind::File(Some(10))), 8);
    step(&mut run, Event::Copied(Ok(10)), 9);
    step(&mut run, Event::Verified(Ok(true)), 10);
    let a = step(&mut run, Event::WalkEnd, 11);
    assert_eq!(a, Action::Finish);
    let r = run.into_result();
    // no file has failed, so the operation has not
    assert!(r.success);
    assert!(r.hash_verified);
    assert_eq!(r.files_processed, 1);
    assert_eq!(r.file_list.len(), 1);
    assert!(r.file_list.iter().all(|f| f.success));
    // the directory is still reported
    assert_eq!(
        r.error_message.as_deref(),
        Some("Failed to create directory dst/d: no space")
    );
    assert_eq!(
        lines(&r)[7],
        "ERROR creating directory: Failed to create directory dst/d: no space"
    );
}

#[test]
fn tree_of_directories_alone_succeeds_even_when_none_can_be_mirrored() {
    let op = operation("Tree", "src", "dst", OperationType::Copy);
    let mut run = OperationRun::open(&op, &no_limit(), 1);
    step(&mut run, Event::Source(SourceKind::Directory), 2);
    step(&mut run, Event::Parent(None), 3);
    step(&mut run, Event::Completed(Ok(())), 4);
    step(&mut run, entry("src/d", Some("dst/d"), EntryKind::Directory), 5);
    step(&mut run, Event::Completed(Err(failure(IoErrorKind::PermissionDenied, "denied"))), 6);
    step(&mut run, entry("src/e", Some("dst/e"), EntryKind::Directory), 7);
    step(&mut run, Event::Completed(Err(failure(IoErrorKind::PermissionDenied, "denied"))), 8);
    step(&mut run, Event::WalkEnd, 9);
    let r = run.into_result();
    assert!(r.success);
    assert!(r.file_list.is_empty());
    assert_eq!(
        r.error_message.as_deref(),
        Some("Failed to create directory dst/d: denied; Failed to create directory dst/e: denied")
    );
}

#[test]
fn unreadable_entry_fails_a_directory_copy_that_lists_no_failed_file() {
    let op = operation("Tree", "src", "dst", OperationType::Copy);
    let mut run = OperationRun::open(&op, &no_limit(), 1);
    step(&mut run, Event::Source(SourceKind::Directory), 2);
    step(&mut run, Event::Parent(None), 3);
    step(&mut run, Event::Completed(Ok(())), 4);
    step(&mut run, Event::Entry(Err("IO error for src/x".to_string())), 5);
    step(&mut run, Event::WalkEnd, 6);
    let r = run.into_result();
    assert!(!r.success);
    assert!(r.hash_verified);
    assert!(r.file_list.is_empty());
    assert_eq!(
        r.error_message.as_deref(),
        Some("Error reading directory entry: IO error for src/x")
    );
}

#[test]
fn directory_copy_whose_root_cannot_be_made_fails_at_once() {
    let op = operation("Tree", "src", "dst", OperationType::Copy);
    let mut run = OperationRun::open(&op, &no_limit(), 1);
    step(&mut run, Event::Source(SourceKind::Directory), 2);
    step(&mut run, Event::Parent(None), 3);
    let a = step(&mut run, Event::Completed(Err(failure(IoErrorKind::Other, "read-only"))), 4);
    assert_eq!(a, Action::Finish);
    let r = run.into_result();
    assert!(!r.success);
    assert_eq!(
        r.error_message.as_deref(),
        Some("Failed to create destination directory: read-only")
    );
    assert!(r.file_list.is_empty());
}

#[test]
fn move_of_a_file_onto_an_existing_destination() {
    let op = operation("Archive", "a.txt", "old/a.txt", OperationType::Move);
    let mut run = OperationRun::open(&op, &no_limit(), 1);
    let mut asked: Vec<Action> = vec![run.pending()];
    asked.push(step(&mut run, Event::Source(SourceKind::File(5)), 2));
    let a = step(&mut run, Event::Parent(None), 3);
    assert_eq!(a, Action::ProbeTarget { path: "old/a.txt".to_string() });
    asked.push(a);
    let a = step(&mut run, Event::Answer(true), 4);
    assert_eq!(a, Action::RemoveFile { path: "old/a.txt".to_string() });
    asked.push(a);
    let a = step(&mut run, Event::Completed(Ok(())), 5);
    assert_eq!(a, Action::Rename { from: "a.txt".to_string(), to: "old/a.txt".to_string() });
    asked.push(a);
    let a = step(&mut run, Event::Completed(Ok(())), 6);
    assert_eq!(a, Action::ProbeTarget { path: "old/a.txt".to_string() });
    asked.push(a);
    let a = step(&mut run, Event::Answer(true), 7);
    assert_eq!(a, Action::Finish);
    // no digest was ever asked for
    assert!(asked.iter().all(|a| !matches!(a, Action::Verify { .. })));
    let r = run.into_result();
    assert!(r.success);
    assert!(r.hash_verified);
    assert_eq!(r.error_message, None);
    assert_eq!(r.files_processed, 1);
    assert_eq!(r.total_size, 5);
    assert_eq!(
        r.file_list,
        vec![FileEntry {
            source_path: "a.txt".to_string(),
            destination_path: "old/a.txt".to_string(),
            size: 5,
            hash_verified: true,
            success: true,
            error_message: None,
        }]
    );
    assert_eq!(
        lines(&r)[4..],
        [
            "  Source is a file",
            "  File size: 5 bytes",
            "  Starting file move...",
            "  WARNING: Destination already exists",
            "  Removed existing destination file",
            "  Move operation completed",
            "  Verification: Destination exists",
        ]
    );
}

#[test]
fn move_of_a_file_to_a_free_destination_renames_at_once() {
    let op = operation("Archive", "a.txt", "b.txt", OperationType::Move);
    let mut run = OperationRun::open(&op, &no_limit(), 1);
    step(&mut run, Event::Source(SourceKind::File(5)), 2);
    step(&mut run, Event::Parent(None), 3);
    let a = step(&mut run, Event::Answer(false), 4);
    assert_eq!(a, Action::Rename { from: "a.txt".to_string(), to: "b.txt".to_string() });
    step(&mut run, Event::Completed(Ok(())), 5);
    // the destination is not there after the rename
    let a = step(&mut run, Event::Answer(false), 6);
    assert_eq!(a, Action::Finish);
    let r = run.into_result();
    assert!(!r.success);
    assert!(r.hash_verified);
    assert_eq!(r.error_message.as_deref(), Some("Destination file doesn't exist after move"));
    assert!(r.file_list.is_empty());
}

#[test]
fn move_whose_destination_cannot_be_cleared_does_not_rename() {
    let op = operation("Archive", "a.txt", "b.txt", OperationType::Move);
    let mut run = OperationRun::open(&op, &no_limit(), 1);
    step(&mut run, Event::Source(SourceKind::File(5)), 2);
    step(&mut run, Event::Parent(None), 3);
    step(&mut run, Event::Answer(true), 4);
    let a = step(&mut run, Event::Completed(Err(failure(IoErrorKind::PermissionDenied, "denied"))), 5);
    assert_eq!(a, Action::Finish);
    let r = run.into_result();
    assert!(!r.success);
    assert_eq!(
        r.error_message.as_deref(),
        Some("Cannot move: destination exists and cannot be removed: denied")
    );
    assert!(r.file_list.is_empty());
}

#[test]
fn move_that_fails_gets_advice() {
    let kinds = [
        (IoErrorKind::PermissionDenied, false, Some("  Permission denied - check file permissions")),
        (IoErrorKind::PermissionDenied, true, Some("  Permission denied - check directory permissions")),
        (IoErrorKind::CrossesDevices, false, Some("  Cannot move across devices - use copy instead")),
        (IoErrorKind::CrossesDevices, true, Some("  Cannot move across devices - use copy instead")),
        (IoErrorKind::NotFound, false, Some("  Source not found - check path")),
        (IoErrorKind::NotFound, true, Some("  Source not found - check path")),
        (IoErrorKind::InvalidInput, false, None),
        (
            IoErrorKind::InvalidInput,
            true,
            Some("  Invalid operation - check if destination is a subdirectory of source"),
        ),
        (IoErrorKind::AlreadyExists, false, None),
        (IoErrorKind::Other, true, None),
    ];
    for (kind, directory, advice) in kinds {
        let op = operation("Archive", "a", "b", OperationType::Move);
        let mut run = OperationRun::open(&op, &no_limit(), 1);
        let source = if directory { SourceKind::Directory } else { SourceKind::File(5) };
        step(&mut run, Event::Source(source), 2);
        step(&mut run, Event::Parent(None), 3);
        step(&mut run, Event::Answer(false), 4);
        let a = step(&mut run, Event::Completed(Err(failure(kind, "it broke"))), 5);
        assert_eq!(a, Action::Finish);
        let r = run.into_result();
        assert!(!r.success);
        assert!(r.hash_verified);
        let message = "Move failed: it broke (from a to b)";
        assert_eq!(r.error_message.as_deref(), Some(message));
        if directory {
            assert!(r.file_list.is_empty());
        } else {
            assert_eq!(
                r.file_list,
                vec![FileEntry {
                    source_path: "a".to_string(),
                    destination_path: "b".to_string(),
                    size: 5,
                    hash_verified: false,
                    success: false,
                    error_message: Some(message.to_string()),
                }]
            );
        }
        let log = lines(&r);
        match advice {
            Some(line) => assert_eq!(log[log.len() - 1], line),
            None => assert_eq!(log[log.len() - 1], "ERROR: Move failed: it broke (from a to b)"),
        }
    }
}

#[test]
fn move_of_a_directory_onto_itself_changes_nothing() {
    let op = operation("Shuffle", "data", "./data", OperationType::Move);
    let mut run = OperationRun::open(&op, &no_limit(), 1);
    let mut asked: Vec<Action> = vec![run.pending()];
    asked.push(step(&mut run, Event::Source(SourceKind::Directory), 2));
    asked.push(step(&mut run, Event::Parent(None), 3));
    let a = step(&mut run, Event::Answer(true), 4);
    assert_eq!(
        a,
        Action::CompareCanonical { first: "data".to_string(), second: "./data".to_string() }
    );
    asked.push(a);
    let a = step(&mut run, Event::Answer(true), 5);
    assert_eq!(a, Action::Finish);
    assert!(asked.iter().all(|a| !mutates(a)));
    let r = run.into_result();
    assert!(!r.success);
    assert_eq!(
        r.error_message.as_deref(),
        Some("Source and destination are the same directory")
    );
    assert_eq!(r.files_processed, 0);
    assert!(r.file_list.is_empty());
    assert_eq!(r.end_time, 5);
    assert_eq!(
        lines(&r)[4..],
        [
            "  Source is a directory",
            "  Starting directory move...",
            "  WARNING: Destination already exists",
            "ERROR: Source and destination are the same directory",
        ]
    );
}

#[test]
fn move_of_a_directory_lists_the_files_under_their_old_paths() {
    let op = operation("Shuffle", "data", "moved", OperationType::Move);
    let mut run = OperationRun::open(&op, &no_limit(), 1);
    step(&mut run, Event::Source(SourceKind::Directory), 2);
    step(&mut run, Event::Parent(None), 3);
    step(&mut run, Event::Answer(true), 4);
    let a = step(&mut run, Event::Answer(false), 5);
    assert_eq!(a, Action::RemoveTree { path: "moved".to_string() });
    step(&mut run, Event::Completed(Ok(())), 6);
    step(&mut run, Event::Completed(Ok(())), 7);
    let a = step(&mut run, Event::Answer(true), 8);
    assert_eq!(a, Action::NextEntry { root: "moved".to_string() });
    step(&mut run, entry("moved", Some("data"), EntryKind::Directory), 9);
    step(&mut run, entry("moved/a", Some("data/a"), EntryKind::File(Some(3))), 10);
    step(&mut run, Event::Entry(Err("unreadable".to_string())), 11);
    step(&mut run, entry("moved/b", Some("data/b"), EntryKind::File(None)), 12);
    step(&mut run, entry("moved/c", None, EntryKind::File(Some(4))), 13);
    step(&mut run, entry("moved/l", Some("data/l"), EntryKind::Other), 14);
    let a = step(&mut run, Event::WalkEnd, 15);
    assert_eq!(a, Action::Finish);
    let r = run.into_result();
    assert!(r.success);
    assert!(r.hash_verified);
    assert_eq!(r.error_message, None);
    assert_eq!(r.files_processed, 3);
    assert_eq!(r.total_size, 7);
    assert_eq!(
        r.file_list,
        vec![
            FileEntry {
                source_path: "data/a".to_string(),
                destination_path: "moved/a".to_string(),
                size: 3,
                hash_verified: true,
                success: true,
                error_message: None,
            },
            FileEntry {
                source_path: "moved/c".to_string(),
                destination_path: "moved/c".to_string(),
                size: 4,
                hash_verified: true,
                success: true,
                error_message: None,
            },
        ]
    );
    assert_eq!(
        lines(&r)[5..],
        [
            "  Starting directory move...",
            "  WARNING: Destination already exists",
            "  Removed existing destination directory",
            "  Move operation completed",
            "  Verification: Destination exists",
            "  Files moved: 3",
            "  Total size: 7 bytes",
        ]
    );
}

#[test]
fn move_of_a_directory_that_is_gone_afterwards_fails() {
    let op = operation("Shuffle", "data", "moved", OperationType::Move);
    let mut run = OperationRun::open(&op, &no_limit(), 1);
    step(&mut run, Event::Source(SourceKind::Directory), 2);
    step(&mut run, Event::Parent(None), 3);
    step(&mut run, Event::Answer(false), 4);
    step(&mut run, Event::Completed(Ok(())), 5);
    let a = step(&mut run, Event::Answer(false), 6);
    assert_eq!(a, Action::Finish);
    let r = run.into_result();
    assert!(!r.success);
    assert_eq!(
        r.error_message.as_deref(),
        Some("Destination directory doesn't exist after move")
    );
}

#[test]
fn an_event_that_answers_nothing_is_refused_and_changes_nothing() {
    let op = operation("Backup", "a.txt", "b.txt", OperationType::Copy);
    let mut run = OperationRun::open(&op, &no_limit(), 1);
    let before = run.result().details.len();
    let refused = run.advance(Event::Copied(Ok(3)), 2);
    assert_eq!(refused.unwrap_err().phase, Phase::Source);
    assert_eq!(run.phase(), Phase::Source);
    assert_eq!(run.result().details.len(), before);
    assert!(run.advance(Event::WalkEnd, 2).is_err());
    assert!(run.advance(Event::Answer(true), 2).is_err());
    assert!(run.advance(Event::Source(SourceKind::Missing), 3).is_ok());
    assert!(run.is_finished());
    // a finished run takes nothing more
    let refused = run.advance(Event::Source(SourceKind::Missing), 4);
    assert_eq!(refused.unwrap_err().phase, Phase::Finished);
    assert!(run.advance(Event::Completed(Ok(())), 4).is_err());
    assert_eq!(run.result().end_time, 3);
}

#[test]
fn a_limited_copy_is_throttled_and_says_so() {
    let mut op = operation("Slow", "a.bin", "b.bin", OperationType::Copy);
    op.rate_limit = RateLimit { enabled: true, bytes_per_second: None, megabytes_per_minute: Some(60) };
    let global = RateLimit { enabled: true, bytes_per_second: Some(131072), megabytes_per_minute: None };
    let mut run = OperationRun::open(&op, &global, 1);
    assert!(!run.limiter().is_enabled());
    step(&mut run, Event::Source(SourceKind::File(262144)), 2);
    let a = step(&mut run, Event::Parent(None), 1000);
    assert_eq!(
        a,
        Action::CopyFile { source: "a.bin".to_string(), target: "b.bin".to_string(), throttled: true }
    );
    assert_eq!(run.limiter().get_rate_limit(), Some(131072));
    assert_eq!(run.limiter().get_window_elapsed(1000), 0);
    assert_eq!(
        lines(run.result())[5..],
        [
            "  File size: 262144 bytes",
            "  Rate limiting: 131072 bytes/second (7.50 MB/min)",
            "  Starting file copy...",
        ]
    );
    // one chunk of 64 KiB at 128 KiB a second: half a second
    assert_eq!(run.throttle_chunk(65536, 262144, 1000), 500_000_000);
    assert_eq!(run.limiter().get_total_transferred(), 65536);
    assert_eq!(run.phase(), Phase::FileCopy);
}

#[test]
fn a_limited_directory_copy_shares_one_throttle() {
    let mut op = operation("Tree", "src", "dst", OperationType::Copy);
    op.rate_limit = RateLimit { enabled: true, bytes_per_second: Some(1000), megabytes_per_minute: None };
    let mut run = OperationRun::open(&op, &no_limit(), 1);
    step(&mut run, Event::Source(SourceKind::Directory), 2);
    step(&mut run, Event::Parent(None), 3);
    assert_eq!(
        lines(run.result())[5..],
        ["  Starting directory copy...", "  Directory rate limiting: 1000 bytes/second (0.06 MB/min)"]
    );
    step(&mut run, Event::Completed(Ok(())), 4);
    let a = step(&mut run, entry("src/a", Some("dst/a"), EntryKind::File(Some(100))), 5);
    assert_eq!(
        a,
        Action::CopyFile { source: "src/a".to_string(), target: "dst/a".to_string(), throttled: true }
    );
    run.throttle_chunk(100, 100, 5);
    step(&mut run, Event::Copied(Ok(100)), 6);
    step(&mut run, Event::Verified(Ok(true)), 7);
    step(&mut run, entry("src/b", Some("dst/b"), EntryKind::File(Some(50))), 8);
    run.throttle_chunk(50, 50, 8);
    // the throttle has counted the chunks of both files
    assert_eq!(run.limiter().get_total_transferred(), 150);
}

#[test]
fn a_move_is_never_throttled() {
    let mut op = operation("Archive", "a", "b", OperationType::Move);
    op.rate_limit = RateLimit { enabled: true, bytes_per_second: Some(1), megabytes_per_minute: None };
    let mut run = OperationRun::open(&op, &no_limit(), 1);
    step(&mut run, Event::Source(SourceKind::File(5)), 2);
    step(&mut run, Event::Parent(None), 3);
    assert!(!run.limiter().is_enabled());
    assert_eq!(run.throttle_chunk(1000, 1000, 4), 0);
    assert_eq!(run.result().details.len(), 7);
}

#[test]
fn rate_note_matches_the_floating_point_rendering() {
    // 32768 bytes per second are 1.875 MB per minute: a tie between two
    // hundredths, as are its odd multiples
    let limits: [u64; 16] = [
        0, 1, 87, 88, 1000, 2185, 4096, 32768, 98304, 131072, 163840, 1048576, 1234567, 10485760,
        987654321, 229376,
    ];
    for limit in limits {
        let mut op = operation("Slow", "a", "b", OperationType::Copy);
        op.rate_limit =
            RateLimit { enabled: true, bytes_per_second: Some(limit), megabytes_per_minute: None };
        let mut run = OperationRun::open(&op, &no_limit(), 1);
        step(&mut run, Event::Source(SourceKind::File(1)), 2);
        step(&mut run, Event::Parent(None), 3);
        let expected = format!(
            "  Rate limiting: {} bytes/second ({:.2} MB/min)",
            limit,
            limit as f64 * 60.0 / (1024.0 * 1024.0)
        );
        assert_eq!(run.result().details[6], expected);
    }
}

#[test]
fn one_run_for_each_operation_and_one_result_for_each_run() {
    let ops = vec![
        operation("one", "a", "b", OperationType::Copy),
        operation("two", "c", "d", OperationType::Move),
        operation("one", "e", "f", OperationType::Copy),
    ];
    let runs = FileManager::execute_operations(&ops, &no_limit(), 7);
    assert_eq!(runs.len(), 3);
    for (run, op) in runs.iter().zip(ops.iter()) {
        assert_eq!(run.result().operation_name, op.name);
        assert_eq!(run.result().source, op.origin);
        assert_eq!(run.result().start_time, 7);
        assert_eq!(run.pending(), Action::ProbeSource { path: op.origin.clone() });
    }
    // the runs finish in another order than they were opened in
    let mut results: Vec<OperationResult> = Vec::new();
    let mut notices: Vec<String> = Vec::new();
    for mut run in runs.into_iter().rev() {
        step(&mut run, Event::Source(SourceKind::Missing), 8);
        notices.push(FileManager::collect(&mut results, run));
    }
    assert_eq!(results.len(), 3);
    assert_eq!(notices, vec!["Completed: one", "Completed: two", "Completed: one"]);
    let sources: Vec<&str> = results.iter().map(|r| r.source.as_str()).collect();
    assert_eq!(sources, vec!["e", "c", "a"]);
    let none: Vec<FileOperation> = Vec::new();
    assert!(FileManager::execute_operations(&none, &no_limit(), 7).is_empty());
}

#[test]
fn duration_is_in_whole_milliseconds() {
    let op = operation("Backup", "a", "b", OperationType::Copy);
    let mut run = OperationRun::open(&op, &no_limit(), 1_000_000);
    step(&mut run, Event::Source(SourceKind::Missing), 4_999_999);
    let mut r = run.into_result();
    assert_eq!(r.duration_millis(), 3);
    r.end_time = 5_000_000;
    assert_eq!(r.duration_millis(), 4);
    r.end_time = 0;
    assert_eq!(r.duration_millis(), 0);
}
