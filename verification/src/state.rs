//! The states of a run and the steps between them, as a specification.
//!
//! A run is a state machine: it takes the driver's answers one by one,
//! decides what has to happen next, and writes the result as it goes. Every
//! failure ends up in the result; a run never gives up with an error of its
//! own.
//!
//! Each step is a function of its own, written out in full and marked
//! opaque, so that a proof about one step does not drag in all the others.
//! A proof that needs to know what a step does names it in `reveal`, as in
//! `reveal(RunView::after_source)`; the laws of the module `laws` state what
//! follows from the steps without that.

use crate::config::{FileOperationView, OperationType, RateLimit};
use crate::events::{ActionView, EntryKind, EventView, Phase, SourceKind, WalkEntryView};
use crate::file_ops::{effective_rate, FileEntryView, IoErrorKind, IoFailureView,
    OperationResultView};
use crate::messages;
use crate::rate_limiter::{capped_sum, ThrottleState};
use crate::text::joined;
use vstd::prelude::*;

verus! {

/// The entry of a file that came through.
pub open spec fn good_entry(source: Seq<char>, target: Seq<char>, size: u64) -> FileEntryView {
    FileEntryView {
        source_path: source,
        destination_path: target,
        size,
        hash_verified: true,
        success: true,
        error_message: None,
    }
}

/// The entry of a file that did not come through.
pub open spec fn bad_entry(source: Seq<char>, target: Seq<char>, size: u64, message: Seq<char>)
    -> FileEntryView {
    FileEntryView {
        source_path: source,
        destination_path: target,
        size,
        hash_verified: false,
        success: false,
        error_message: Some(message),
    }
}

/// The advice that the log gives after a failed copy.
pub open spec fn copy_hint(kind: IoErrorKind) -> Option<Seq<char>> {
    match kind {
        IoErrorKind::PermissionDenied => Some("  Permission denied - check file permissions"@),
        IoErrorKind::NotFound => Some("  File not found - check path"@),
        IoErrorKind::AlreadyExists => Some("  Destination already exists"@),
        _ => None,
    }
}

/// The advice that the log gives after a failed move.
pub open spec fn move_hint(directory: bool, kind: IoErrorKind) -> Option<Seq<char>> {
    match kind {
        IoErrorKind::PermissionDenied => Some(
            if directory {
                "  Permission denied - check directory permissions"@
            } else {
                "  Permission denied - check file permissions"@
            },
        ),
        IoErrorKind::CrossesDevices => Some("  Cannot move across devices - use copy instead"@),
        IoErrorKind::NotFound => Some("  Source not found - check path"@),
        IoErrorKind::InvalidInput => if directory {
            Some("  Invalid operation - check if destination is a subdirectory of source"@)
        } else {
            None
        },
        _ => None,
    }
}

/// One more than `count`, held at the largest count.
pub open spec fn next_count(count: usize) -> usize {
    if count < usize::MAX {
        (count + 1) as usize
    } else {
        usize::MAX
    }
}

/// The state of a run.
pub struct RunView {
    pub operation: FileOperationView,
    pub global_rate_limit: RateLimit,
    pub phase: Phase,
    /// Whether the origin is a directory.
    pub directory: bool,
    /// The result as far as it has been written.
    pub result: OperationResultView,
    /// The messages of all that went wrong in a directory copy.
    pub failures: Seq<Seq<char>>,
    /// False once a file of a directory copy has failed or an entry of the
    /// tree could not be read.
    pub all_successful: bool,
    /// The length of the file in hand before it was copied.
    pub file_size: u64,
    /// The number of bytes of the file in hand that were copied.
    pub copied: u64,
    /// The parent directory to make.
    pub parent: Seq<char>,
    /// The entry of the tree in hand, and its path on the other side.
    pub entry_source: Seq<char>,
    pub entry_target: Seq<char>,
    pub throttle: ThrottleState,
}

/// The state of a run that has just been opened at time `start_time`.
pub open spec fn opened(operation: FileOperationView, global: RateLimit, start_time: u64)
    -> RunView {
    RunView {
        operation,
        global_rate_limit: global,
        phase: Phase::Source,
        directory: false,
        result: OperationResultView {
            operation_name: operation.name,
            source: operation.origin,
            destination: operation.destination,
            success: false,
            error_message: None,
            hash_verified: false,
            operation_type: operation.operation_type,
            files_processed: 0,
            total_size: 0,
            start_time,
            end_time: start_time,
            details: seq![
                messages::starting_operation_text(operation.name),
                messages::type_line_text(operation.operation_type),
                messages::source_line_text(operation.origin),
                messages::destination_line_text(operation.destination),
            ],
            file_list: Seq::empty(),
        },
        failures: Seq::empty(),
        all_successful: true,
        file_size: 0,
        copied: 0,
        parent: Seq::empty(),
        entry_source: Seq::empty(),
        entry_target: Seq::empty(),
        throttle: ThrottleState::started(None, None, start_time),
    }
}

impl RunView {
    /// With one more line in the log.
    pub open spec fn note(self, line: Seq<char>) -> RunView {
        RunView {
            result: OperationResultView { details: self.result.details.push(line), ..self.result },
            ..self
        }
    }

    /// With one more line in the log, where there is one.
    pub open spec fn hint(self, line: Option<Seq<char>>) -> RunView {
        match line {
            Some(l) => self.note(l),
            None => self,
        }
    }

    /// With `message` as the error of the operation, and in the log.
    pub open spec fn fail(self, message: Seq<char>) -> RunView {
        RunView {
            result: OperationResultView {
                details: self.result.details.push(messages::error_line_text(message)),
                error_message: Some(message),
                ..self.result
            },
            ..self
        }
    }

    /// With `message` among the failures of the directory copy, and `line`
    /// in the log.
    pub open spec fn blame(self, message: Seq<char>, line: Seq<char>) -> RunView {
        RunView {
            result: OperationResultView { details: self.result.details.push(line), ..self.result },
            failures: self.failures.push(message),
            ..self
        }
    }

    /// With one more entry in the list of files.
    pub open spec fn record(self, entry: FileEntryView) -> RunView {
        RunView {
            result: OperationResultView {
                file_list: self.result.file_list.push(entry),
                ..self.result
            },
            ..self
        }
    }

    /// In another phase.
    pub open spec fn goto(self, phase: Phase) -> RunView {
        RunView { phase, ..self }
    }

    /// Finished at time `now`.
    pub open spec fn finish(self, now: u64) -> RunView {
        RunView {
            phase: Phase::Finished,
            result: OperationResultView { end_time: now, ..self.result },
            ..self
        }
    }

    /// Marked as failed somewhere in the tree.
    pub open spec fn spoil(self) -> RunView {
        RunView { all_successful: false, ..self }
    }

    /// With the result's mark of success set.
    pub open spec fn succeed(self, success: bool) -> RunView {
        RunView { result: OperationResultView { success, ..self.result }, ..self }
    }

    /// With the result's mark of verification set.
    pub open spec fn verify(self, hash_verified: bool) -> RunView {
        RunView { result: OperationResultView { hash_verified, ..self.result }, ..self }
    }

    /// With the result's total size set.
    pub open spec fn weigh(self, total_size: u64) -> RunView {
        RunView { result: OperationResultView { total_size, ..self.result }, ..self }
    }

    /// At the start of a transfer at time `now`: the result carries the
    /// marks with which the transfer begins, and the throttle is made for
    /// the effective rate.
    pub open spec fn begin(self, now: u64, hash_verified: bool, files: usize, throttled: bool)
        -> RunView {
        RunView {
            result: OperationResultView {
                hash_verified,
                files_processed: files,
                start_time: now,
                end_time: now,
                ..self.result
            },
            throttle: if throttled {
                ThrottleState::started(
                    effective_rate(self.operation.rate_limit, self.global_rate_limit),
                    None,
                    now,
                )
            } else {
                self.throttle
            },
            ..self
        }
    }

    /// With the line on the rate limit in the log, where a limit holds.
    pub open spec fn note_rate(self) -> RunView {
        match effective_rate(self.operation.rate_limit, self.global_rate_limit) {
            Some(limit) => self.note(messages::rate_note_text(self.directory, limit)),
            None => self,
        }
    }

    /// The request that a run in this state has pending.
    pub open spec fn pending(self) -> ActionView {
        let origin = self.operation.origin;
        let destination = self.operation.destination;
        match self.phase {
            Phase::Source => ActionView::ProbeSource { path: origin },
            Phase::Parent => ActionView::ProbeParent { destination },
            Phase::ParentCreation => ActionView::CreateDirectories { path: self.parent },
            Phase::FileCopy => ActionView::CopyFile {
                source: origin,
                target: destination,
                throttled: self.throttle.enabled,
            },
            Phase::FileVerification => ActionView::Verify { source: origin, target: destination },
            Phase::FileCleanup => ActionView::Discard { path: destination },
            Phase::RootCreation => ActionView::CreateDirectories { path: destination },
            Phase::Walk => ActionView::NextEntry { root: origin },
            Phase::DirectoryCreation => ActionView::CreateDirectories { path: self.entry_target },
            Phase::EntryCopy => ActionView::CopyFile {
                source: self.entry_source,
                target: self.entry_target,
                throttled: self.throttle.enabled,
            },
            Phase::EntryVerification => ActionView::Verify {
                source: self.entry_source,
                target: self.entry_target,
            },
            Phase::EntryCleanup => ActionView::Discard { path: self.entry_target },
            Phase::TargetProbe => ActionView::ProbeTarget { path: destination },
            Phase::Identity => ActionView::CompareCanonical { first: origin, second: destination },
            Phase::Removal => if self.directory {
                ActionView::RemoveTree { path: destination }
            } else {
                ActionView::RemoveFile { path: destination }
            },
            Phase::Rename => ActionView::Rename { from: origin, to: destination },
            Phase::Confirmation => ActionView::ProbeTarget { path: destination },
            Phase::Inventory => ActionView::NextEntry { root: destination },
            Phase::Finished => ActionView::Finish,
        }
    }

    /// After the origin was probed. A missing origin, or one that is neither
    /// file nor directory, ends the run at once.
    #[verifier::opaque]
    pub open spec fn after_source(self, kind: SourceKind, now: u64) -> RunView {
        match kind {
            SourceKind::Missing => self.fail(
                messages::source_missing_text(self.operation.origin),
            ).finish(now),
            SourceKind::Other => self.fail(
                messages::source_invalid_text(self.operation.origin),
            ).finish(now),
            SourceKind::File(size) => RunView { directory: false, file_size: size, ..self }.note(
                messages::source_is_text(false),
            ).goto(Phase::Parent),
            SourceKind::Directory => RunView { directory: true, file_size: 0, ..self }.note(
                messages::source_is_text(true),
            ).goto(Phase::Parent),
        }
    }

    /// After the destination's parent was probed.
    #[verifier::opaque]
    pub open spec fn after_parent(self, parent: Option<Seq<char>>, now: u64) -> RunView {
        match parent {
            Some(p) => RunView { parent: p, ..self }.note(messages::creating_parent_text(p)).goto(
                Phase::ParentCreation,
            ),
            None => self.dispatch(now),
        }
    }

    /// After the attempt to make the destination's parent.
    #[verifier::opaque]
    pub open spec fn after_parent_creation(self, outcome: Result<(), IoFailureView>, now: u64)
        -> RunView {
        match outcome {
            Ok(_) => self.note("  Parent directory created successfully"@).dispatch(now),
            Err(e) => self.fail(messages::parent_failed_text(self.parent, e.message)).finish(now),
        }
    }

    /// At the start of the transfer that the operation's type and the kind
    /// of its origin call for.
    #[verifier::opaque]
    pub open spec fn dispatch(self, now: u64) -> RunView {
        match self.operation.operation_type {
            OperationType::Copy => if self.directory {
                self.copy_directory(now)
            } else {
                self.copy_file(now)
            },
            OperationType::Move => if self.directory {
                self.move_directory(now)
            } else {
                self.move_file(now)
            },
        }
    }

    /// At the start of the copy of a single file.
    #[verifier::opaque]
    pub open spec fn copy_file(self, now: u64) -> RunView {
        self.begin(now, false, 1, true).weigh(self.file_size).note(
            messages::file_size_text(self.file_size),
        ).note_rate().note("  Starting file copy..."@).goto(Phase::FileCopy)
    }

    /// After the attempt to copy the single file. A copy that went through
    /// is always verified next.
    #[verifier::opaque]
    pub open spec fn after_file_copy(self, outcome: Result<u64, IoFailureView>, now: u64)
        -> RunView {
        match outcome {
            Ok(bytes) => RunView { copied: bytes, ..self }.note(
                messages::copy_completed_text(bytes),
            ).weigh(bytes).note("  Verifying file integrity..."@).goto(Phase::FileVerification),
            Err(e) => {
                let message = messages::copy_failed_text(
                    e.message,
                    self.operation.origin,
                    self.operation.destination,
                );
                self.fail(message).record(
                    bad_entry(
                        self.operation.origin,
                        self.operation.destination,
                        self.file_size,
                        message,
                    ),
                ).hint(copy_hint(e.kind)).finish(now)
            },
        }
    }

    /// After the copy of the single file was compared with its source. A
    /// copy that is not known to match is removed next.
    #[verifier::opaque]
    pub open spec fn after_file_verification(self, outcome: Result<bool, IoFailureView>, now: u64)
        -> RunView {
        match outcome {
            Ok(true) => self.note("  Verification successful: Files match"@).succeed(true).verify(
                true,
            ).record(
                good_entry(self.operation.origin, self.operation.destination, self.copied),
            ).finish(now),
            Ok(false) => self.reject_copy("Hash verification failed - files are different"@),
            Err(e) => self.reject_copy(messages::verification_error_text(e.message)),
        }
    }

    /// With the copy of the single file given up for the reason that
    /// `message` states.
    pub open spec fn reject_copy(self, message: Seq<char>) -> RunView {
        self.fail(message).record(
            bad_entry(self.operation.origin, self.operation.destination, self.copied, message),
        ).goto(Phase::FileCleanup)
    }

    /// After the failed copy of the single file was removed, or not.
    #[verifier::opaque]
    pub open spec fn after_file_cleanup(self, now: u64) -> RunView {
        self.note("  Cleaned up failed copy"@).finish(now)
    }

    /// At the start of the copy of a directory. One throttle serves all the
    /// files of the tree.
    #[verifier::opaque]
    pub open spec fn copy_directory(self, now: u64) -> RunView {
        self.begin(now, true, 0, true).note("  Starting directory copy..."@).note_rate().goto(
            Phase::RootCreation,
        )
    }

    /// After the attempt to make the root of the destination tree.
    #[verifier::opaque]
    pub open spec fn after_root_creation(self, outcome: Result<(), IoFailureView>, now: u64)
        -> RunView {
        match outcome {
            Ok(_) => self.note("  Destination directory created"@).goto(Phase::Walk),
            Err(e) => self.fail(messages::root_failed_text(e.message)).finish(now),
        }
    }

    /// After the walk through the source tree handed over an entry. The
    /// root of the tree is passed over; no failure stops the walk.
    #[verifier::opaque]
    pub open spec fn after_entry(self, entry: Result<WalkEntryView, Seq<char>>) -> RunView {
        match entry {
            Err(words) => self.blame(
                messages::entry_unreadable_text(words),
                messages::entry_unreadable_warning_text(words),
            ).spoil(),
            Ok(e) => if e.path == self.operation.origin {
                self
            } else {
                match e.counterpart {
                    None => self.blame(
                        messages::no_relative_path_text(e.path),
                        messages::warning_line_text(messages::no_relative_path_text(e.path)),
                    ),
                    Some(target) => match e.kind {
                        EntryKind::Directory => RunView {
                            entry_source: e.path,
                            entry_target: target,
                            ..self
                        }.goto(Phase::DirectoryCreation),
                        EntryKind::File(length) => {
                            let size = match length {
                                Some(n) => n,
                                None => 0,
                            };
                            let files = next_count(self.result.files_processed);
                            RunView {
                                entry_source: e.path,
                                entry_target: target,
                                file_size: size,
                                result: OperationResultView {
                                    files_processed: files,
                                    total_size: capped_sum(self.result.total_size, size),
                                    ..self.result
                                },
                                ..self
                            }.note(messages::copying_file_text(files, e.path)).goto(
                                Phase::EntryCopy,
                            )
                        },
                        EntryKind::Other => self,
                    },
                }
            },
        }
    }

    /// After the attempt to make a directory of the destination tree. A
    /// directory that cannot be made is a warning: it is blamed and logged,
    /// and the operation does not fail for it, since no file has failed.
    #[verifier::opaque]
    pub open spec fn after_directory_creation(self, outcome: Result<(), IoFailureView>)
        -> RunView {
        match outcome {
            Ok(_) => self.note(messages::directory_created_text(self.entry_target)).goto(
                Phase::Walk,
            ),
            Err(e) => {
                let message = messages::directory_failed_text(self.entry_target, e.message);
                self.blame(message, messages::directory_failed_line_text(message)).goto(
                    Phase::Walk,
                )
            },
        }
    }

    /// After the attempt to copy a file of the tree.
    #[verifier::opaque]
    pub open spec fn after_entry_copy(self, outcome: Result<u64, IoFailureView>) -> RunView {
        match outcome {
            Ok(bytes) => RunView { copied: bytes, ..self }.note(
                messages::copied_bytes_text(bytes),
            ).goto(Phase::EntryVerification),
            Err(e) => {
                let message = messages::entry_copy_failed_text(
                    self.entry_source,
                    self.entry_target,
                    e.message,
                );
                self.blame(message, messages::error_line_text(message)).spoil().record(
                    bad_entry(self.entry_source, self.entry_target, self.file_size, message),
                ).goto(Phase::Walk)
            },
        }
    }

    /// After the copy of a file of the tree was compared with its source.
    #[verifier::opaque]
    pub open spec fn after_entry_verification(self, outcome: Result<bool, IoFailureView>)
        -> RunView {
        match outcome {
            Ok(true) => self.note("    Verification successful"@).record(
                good_entry(self.entry_source, self.entry_target, self.copied),
            ).goto(Phase::Walk),
            Ok(false) => {
                let message = messages::entry_mismatch_text(self.entry_source);
                self.blame(message, messages::error_line_text(message)).spoil().verify(
                    false,
                ).record(
                    bad_entry(
                        self.entry_source,
                        self.entry_target,
                        self.copied,
                        "Hash verification failed"@,
                    ),
                ).goto(Phase::EntryCleanup)
            },
            Err(e) => {
                let message = messages::entry_verification_error_text(
                    self.entry_source,
                    e.message,
                );
                self.blame(message, messages::error_line_text(message)).spoil().verify(
                    false,
                ).record(
                    bad_entry(
                        self.entry_source,
                        self.entry_target,
                        self.copied,
                        messages::verification_error_text(e.message),
                    ),
                ).goto(Phase::EntryCleanup)
            },
        }
    }

    /// After the failed copy of a file of the tree was removed, or not.
    #[verifier::opaque]
    pub open spec fn after_entry_cleanup(self) -> RunView {
        self.note("    Cleaned up failed copy"@).goto(Phase::Walk)
    }

    /// After the walk through the source tree has ended. The operation has
    /// succeeded when nothing in the tree has failed; its error is all the
    /// failures in order, joined.
    #[verifier::opaque]
    pub open spec fn after_walk(self, now: u64) -> RunView {
        let summed = self.note(messages::files_processed_text(self.result.files_processed)).note(
            messages::total_size_text(self.result.total_size),
        ).succeed(self.all_successful);
        let closed = if self.failures.len() > 0 {
            RunView {
                result: OperationResultView {
                    error_message: Some(joined(self.failures, "; "@)),
                    ..summed.result
                },
                ..summed
            }
        } else {
            summed
        };
        closed.finish(now)
    }

    /// At the start of the move of a single file.
    #[verifier::opaque]
    pub open spec fn move_file(self, now: u64) -> RunView {
        self.begin(now, true, 1, false).weigh(self.file_size).note(
            messages::file_size_text(self.file_size),
        ).note("  Starting file move..."@).goto(Phase::TargetProbe)
    }

    /// At the start of the move of a directory.
    #[verifier::opaque]
    pub open spec fn move_directory(self, now: u64) -> RunView {
        self.begin(now, true, 0, false).note("  Starting directory move..."@).goto(
            Phase::TargetProbe,
        )
    }

    /// After the destination of a move was probed. What is there has to go
    /// before the rename; a directory is first compared with the origin.
    #[verifier::opaque]
    pub open spec fn after_target_probe(self, taken: bool) -> RunView {
        if taken {
            self.note("  WARNING: Destination already exists"@).goto(
                if self.directory {
                    Phase::Identity
                } else {
                    Phase::Removal
                },
            )
        } else {
            self.goto(Phase::Rename)
        }
    }

    /// After origin and destination of a directory move were compared. A
    /// move onto itself ends the run before anything is changed.
    #[verifier::opaque]
    pub open spec fn after_identity(self, same: bool, now: u64) -> RunView {
        if same {
            self.fail("Source and destination are the same directory"@).finish(now)
        } else {
            self.goto(Phase::Removal)
        }
    }

    /// After the attempt to remove what was at the destination of a move.
    #[verifier::opaque]
    pub open spec fn after_removal(self, outcome: Result<(), IoFailureView>, now: u64) -> RunView {
        match outcome {
            Ok(_) => self.note(
                if self.directory {
                    "  Removed existing destination directory"@
                } else {
                    "  Removed existing destination file"@
                },
            ).goto(Phase::Rename),
            Err(e) => self.fail(messages::cannot_remove_text(e.message)).finish(now),
        }
    }

    /// After the attempt to rename.
    #[verifier::opaque]
    pub open spec fn after_rename(self, outcome: Result<(), IoFailureView>, now: u64) -> RunView {
        match outcome {
            Ok(_) => self.note("  Move operation completed"@).goto(Phase::Confirmation),
            Err(e) => {
                let message = messages::move_failed_text(
                    e.message,
                    self.operation.origin,
                    self.operation.destination,
                );
                let failed = self.fail(message);
                let listed = if self.directory {
                    failed
                } else {
                    failed.record(
                        bad_entry(
                            self.operation.origin,
                            self.operation.destination,
                            self.file_size,
                            message,
                        ),
                    )
                };
                listed.hint(move_hint(self.directory, e.kind)).finish(now)
            },
        }
    }

    /// After the destination was probed once the rename had gone through.
    /// A move counts as verified by the destination being there.
    #[verifier::opaque]
    pub open spec fn after_confirmation(self, present: bool, now: u64) -> RunView {
        if present {
            let confirmed = self.succeed(true).note("  Verification: Destination exists"@);
            if self.directory {
                confirmed.goto(Phase::Inventory)
            } else {
                confirmed.record(
                    good_entry(
                        self.operation.origin,
                        self.operation.destination,
                        self.file_size,
                    ),
                ).finish(now)
            }
        } else {
            self.fail(
                if self.directory {
                    "Destination directory doesn't exist after move"@
                } else {
                    "Destination file doesn't exist after move"@
                },
            ).finish(now)
        }
    }

    /// After the walk through the moved tree handed over an entry. Only
    /// files count; a file whose length cannot be read is counted and not
    /// listed. A listed file has as its source the path that it had before
    /// the move.
    #[verifier::opaque]
    pub open spec fn after_moved_entry(self, entry: Result<WalkEntryView, Seq<char>>) -> RunView {
        match entry {
            Ok(e) => match e.kind {
                EntryKind::File(length) => {
                    let counted = RunView {
                        result: OperationResultView {
                            files_processed: next_count(self.result.files_processed),
                            ..self.result
                        },
                        ..self
                    };
                    match length {
                        Some(size) => counted.weigh(
                            capped_sum(self.result.total_size, size),
                        ).record(
                            good_entry(
                                match e.counterpart {
                                    Some(before) => before,
                                    None => e.path,
                                },
                                e.path,
                                size,
                            ),
                        ),
                        None => counted,
                    }
                },
                _ => self,
            },
            Err(_) => self,
        }
    }

    /// After the walk through the moved tree has ended.
    #[verifier::opaque]
    pub open spec fn after_inventory(self, now: u64) -> RunView {
        self.note(messages::files_moved_text(self.result.files_processed)).note(
            messages::total_size_text(self.result.total_size),
        ).finish(now)
    }

    /// The state after `event` has come in at time `now`, for an event that
    /// the phase accepts.
    pub open spec fn advanced(self, event: EventView, now: u64) -> RunView {
        match (self.phase, event) {
            (Phase::Source, EventView::Source(kind)) => self.after_source(kind, now),
            (Phase::Parent, EventView::Parent(parent)) => self.after_parent(parent, now),
            (Phase::ParentCreation, EventView::Completed(outcome)) => self.after_parent_creation(
                outcome,
                now,
            ),
            (Phase::FileCopy, EventView::Copied(outcome)) => self.after_file_copy(outcome, now),
            (Phase::FileVerification, EventView::Verified(outcome)) =>
                self.after_file_verification(outcome, now),
            (Phase::FileCleanup, EventView::Completed(_)) => self.after_file_cleanup(now),
            (Phase::RootCreation, EventView::Completed(outcome)) => self.after_root_creation(
                outcome,
                now,
            ),
            (Phase::Walk, EventView::Entry(entry)) => self.after_entry(entry),
            (Phase::Walk, EventView::WalkEnd) => self.after_walk(now),
            (Phase::DirectoryCreation, EventView::Completed(outcome)) =>
                self.after_directory_creation(outcome),
            (Phase::EntryCopy, EventView::Copied(outcome)) => self.after_entry_copy(outcome),
            (Phase::EntryVerification, EventView::Verified(outcome)) =>
                self.after_entry_verification(outcome),
            (Phase::EntryCleanup, EventView::Completed(_)) => self.after_entry_cleanup(),
            (Phase::TargetProbe, EventView::Answer(taken)) => self.after_target_probe(taken),
            (Phase::Identity, EventView::Answer(same)) => self.after_identity(same, now),
            (Phase::Removal, EventView::Completed(outcome)) => self.after_removal(outcome, now),
            (Phase::Rename, EventView::Completed(outcome)) => self.after_rename(outcome, now),
            (Phase::Confirmation, EventView::Answer(present)) => self.after_confirmation(
                present,
                now,
            ),
            (Phase::Inventory, EventView::Entry(entry)) => self.after_moved_entry(entry),
            (Phase::Inventory, EventView::WalkEnd) => self.after_inventory(now),
            _ => self,
        }
    }
}

} // verus!
