//! The run of one operation.
//!
//! The driver opens a run, then again and again does what
//! [`OperationRun::pending`] asks for and hands the outcome to
//! [`OperationRun::advance`], until the pending request is
//! [`Action::Finish`]. The result is then complete.

use crate::config::{FileOperation, OperationType, RateLimit};
use crate::events::{accepts, Action, EntryKind, Event, Phase, SourceKind, WalkEntry};
use crate::file_ops::{push_entry, FileEntry, FileManager, IoErrorKind, IoFailure, OperationResult};
use crate::laws::{lemma_opened_consistent, lemma_step_keeps_consistent};
use crate::messages;
use crate::rate_limiter::RateLimiter;
use crate::state::{bad_entry, copy_hint, good_entry, move_hint, opened, RunView};
use crate::text::{join, lines, push_line};
use vstd::prelude::*;

verus! {

/// An event that is no answer to what the run has asked.
#[derive(Debug, Clone, Copy, PartialEq, Eq, Structural)]
pub struct UnexpectedEvent {
    /// The phase in which the run was, and still is.
    pub phase: Phase,
}

/// The run of one operation.
#[derive(Debug)]
pub struct OperationRun {
    operation: FileOperation,
    global_rate_limit: RateLimit,
    phase: Phase,
    directory: bool,
    result: OperationResult,
    failures: Vec<String>,
    all_successful: bool,
    file_size: u64,
    copied: u64,
    parent: String,
    entry_source: String,
    entry_target: String,
    limiter: RateLimiter,
}

impl View for OperationRun {
    type V = RunView;

    closed spec fn view(&self) -> RunView {
        RunView {
            operation: self.operation@,
            global_rate_limit: self.global_rate_limit,
            phase: self.phase,
            directory: self.directory,
            result: self.result@,
            failures: lines(self.failures@),
            all_successful: self.all_successful,
            file_size: self.file_size,
            copied: self.copied,
            parent: self.parent@,
            entry_source: self.entry_source@,
            entry_target: self.entry_target@,
            throttle: self.limiter@,
        }
    }
}

fn entry_ok(source: &str, target: &str, size: u64) -> (entry: FileEntry)
    ensures
        entry@ == good_entry(source@, target@, size),
{
    FileEntry {
        source_path: String::from_str(source),
        destination_path: String::from_str(target),
        size,
        hash_verified: true,
        success: true,
        error_message: None,
    }
}

fn entry_failed(source: &str, target: &str, size: u64, message: String) -> (entry: FileEntry)
    ensures
        entry@ == bad_entry(source@, target@, size, message@),
{
    FileEntry {
        source_path: String::from_str(source),
        destination_path: String::from_str(target),
        size,
        hash_verified: false,
        success: false,
        error_message: Some(message),
    }
}

fn advice_after_copy(kind: IoErrorKind) -> (line: Option<String>)
    ensures
        crate::file_ops::optional_text(line) == copy_hint(kind),
{
    match kind {
        IoErrorKind::PermissionDenied => Some(
            String::from_str("  Permission denied - check file permissions"),
        ),
        IoErrorKind::NotFound => Some(String::from_str("  File not found - check path")),
        IoErrorKind::AlreadyExists => Some(String::from_str("  Destination already exists")),
        _ => None,
    }
}

fn advice_after_move(directory: bool, kind: IoErrorKind) -> (line: Option<String>)
    ensures
        crate::file_ops::optional_text(line) == move_hint(directory, kind),
{
    match kind {
        IoErrorKind::PermissionDenied => if directory {
            Some(String::from_str("  Permission denied - check directory permissions"))
        } else {
            Some(String::from_str("  Permission denied - check file permissions"))
        },
        IoErrorKind::CrossesDevices => Some(
            String::from_str("  Cannot move across devices - use copy instead"),
        ),
        IoErrorKind::NotFound => Some(String::from_str("  Source not found - check path")),
        IoErrorKind::InvalidInput => if directory {
            Some(
                String::from_str(
                    "  Invalid operation - check if destination is a subdirectory of source",
                ),
            )
        } else {
            None
        },
        _ => None,
    }
}

impl OperationRun {
    /// Opens the run of `operation` at time `start_time`. The log starts
    /// with the name, the type and the two paths of the operation.
    pub fn open(operation: &FileOperation, global_rate_limit: &RateLimit, start_time: u64) -> (run:
        OperationRun)
        ensures
            run@ == opened(operation@, *global_rate_limit, start_time),
            run@.consistent(),
    {
        proof {
            lemma_opened_consistent(operation@, *global_rate_limit, start_time);
        }
        let mut details: Vec<String> = Vec::new();
        push_line(&mut details, messages::starting_operation(operation.name.as_str()));
        push_line(&mut details, messages::type_line(operation.operation_type));
        push_line(&mut details, messages::source_line(operation.origin.as_str()));
        push_line(&mut details, messages::destination_line(operation.destination.as_str()));
        let file_list: Vec<FileEntry> = Vec::new();
        let failures: Vec<String> = Vec::new();
        let run = OperationRun {
            operation: operation.duplicate(),
            global_rate_limit: *global_rate_limit,
            phase: Phase::Source,
            directory: false,
            result: OperationResult {
                operation_name: operation.name.clone(),
                source: operation.origin.clone(),
                destination: operation.destination.clone(),
                success: false,
                error_message: None,
                hash_verified: false,
                operation_type: operation.operation_type,
                files_processed: 0,
                total_size: 0,
                start_time,
                end_time: start_time,
                details,
                file_list,
            },
            failures,
            all_successful: true,
            file_size: 0,
            copied: 0,
            parent: String::new(),
            entry_source: String::new(),
            entry_target: String::new(),
            limiter: RateLimiter::new(None, None, start_time),
        };
        assert(run@.result.details =~= opened(
            operation@,
            *global_rate_limit,
            start_time,
        ).result.details);
        assert(run@.result.file_list =~= Seq::empty());
        assert(run@.failures =~= Seq::empty());
        run
    }

    /// The phase in which the run is.
    pub fn phase(&self) -> (phase: Phase)
        ensures
            phase == self@.phase,
    {
        self.phase
    }

    /// True once the result is complete.
    pub fn is_finished(&self) -> (finished: bool)
        ensures
            finished == (self@.phase == Phase::Finished),
    {
        self.phase == Phase::Finished
    }

    /// The result as far as it has been written.
    pub fn result(&self) -> (result: &OperationResult)
        ensures
            result@ == self@.result,
    {
        &self.result
    }

    /// Gives the result out, as far as it has been written.
    pub fn into_result(self) -> (result: OperationResult)
        ensures
            result@ == self@.result,
    {
        self.result
    }

    /// The throttle of the transfer.
    pub fn limiter(&self) -> (limiter: &RateLimiter)
        ensures
            limiter@ == self@.throttle,
    {
        &self.limiter
    }

    /// Counts a chunk with the throttle of the transfer, as
    /// [`RateLimiter::throttle_chunk`] does, and returns the nanoseconds for
    /// which the driver has to pause.
    pub fn throttle_chunk(&mut self, chunk_size: usize, total_size: u64, now: u64) -> (pause: u64)
        ensures
            pause == old(self)@.throttle.chunk_pause(chunk_size, now),
            final(self)@ == (RunView {
                throttle: old(self)@.throttle.chunk_throttled(chunk_size, now),
                ..old(self)@
            }),
            old(self)@.consistent() ==> final(self)@.consistent(),
    {
        self.limiter.throttle_chunk(chunk_size, total_size, now)
    }

    /// The request that the driver has to carry out next.
    pub fn pending(&self) -> (action: Action)
        ensures
            action@ == self@.pending(),
    {
        match self.phase {
            Phase::Source => Action::ProbeSource { path: self.operation.origin.clone() },
            Phase::Parent => Action::ProbeParent {
                destination: self.operation.destination.clone(),
            },
            Phase::ParentCreation => Action::CreateDirectories { path: self.parent.clone() },
            Phase::FileCopy => Action::CopyFile {
                source: self.operation.origin.clone(),
                target: self.operation.destination.clone(),
                throttled: self.limiter.is_enabled(),
            },
            Phase::FileVerification => Action::Verify {
                source: self.operation.origin.clone(),
                target: self.operation.destination.clone(),
            },
            Phase::FileCleanup => Action::Discard { path: self.operation.destination.clone() },
            Phase::RootCreation => Action::CreateDirectories {
                path: self.operation.destination.clone(),
            },
            Phase::Walk => Action::NextEntry { root: self.operation.origin.clone() },
            Phase::DirectoryCreation => Action::CreateDirectories {
                path: self.entry_target.clone(),
            },
            Phase::EntryCopy => Action::CopyFile {
                source: self.entry_source.clone(),
                target: self.entry_target.clone(),
                throttled: self.limiter.is_enabled(),
            },
            Phase::EntryVerification => Action::Verify {
                source: self.entry_source.clone(),
                target: self.entry_target.clone(),
            },
            Phase::EntryCleanup => Action::Discard { path: self.entry_target.clone() },
            Phase::TargetProbe => Action::ProbeTarget {
                path: self.operation.destination.clone(),
            },
            Phase::Identity => Action::CompareCanonical {
                first: self.operation.origin.clone(),
                second: self.operation.destination.clone(),
            },
            Phase::Removal => if self.directory {
                Action::RemoveTree { path: self.operation.destination.clone() }
            } else {
                Action::RemoveFile { path: self.operation.destination.clone() }
            },
            Phase::Rename => Action::Rename {
                from: self.operation.origin.clone(),
                to: self.operation.destination.clone(),
            },
            Phase::Confirmation => Action::ProbeTarget {
                path: self.operation.destination.clone(),
            },
            Phase::Inventory => Action::NextEntry { root: self.operation.destination.clone() },
            Phase::Finished => Action::Finish,
        }
    }

    /// Takes the driver's answer, come in at time `now`. An event that does
    /// not answer the pending request is refused and changes nothing.
    pub fn advance(&mut self, event: Event, now: u64) -> (taken: Result<(), UnexpectedEvent>)
        ensures
            taken is Ok <==> accepts(old(self)@.phase, event@),
            taken is Ok ==> final(self)@ == old(self)@.advanced(event@, now),
            taken matches Err(e) ==> e.phase == old(self)@.phase && final(self)@ == old(self)@,
            old(self)@.consistent() ==> final(self)@.consistent(),
    {
        proof {
            if self@.consistent() && accepts(self@.phase, event@) {
                lemma_step_keeps_consistent(self@, event@, now);
            }
        }
        match self.phase {
            Phase::Source | Phase::Parent | Phase::ParentCreation => self.advance_preparation(
                event,
                now,
            ),
            Phase::FileCopy | Phase::FileVerification | Phase::FileCleanup =>
                self.advance_file_copy(event, now),
            Phase::RootCreation | Phase::Walk | Phase::DirectoryCreation | Phase::EntryCopy
            | Phase::EntryVerification | Phase::EntryCleanup => self.advance_tree_copy(event, now),
            Phase::TargetProbe | Phase::Identity | Phase::Removal | Phase::Rename
            | Phase::Confirmation | Phase::Inventory => self.advance_move(event, now),
            Phase::Finished => Err(UnexpectedEvent { phase: self.phase }),
        }
    }

    fn advance_preparation(&mut self, event: Event, now: u64) -> (taken: Result<
        (),
        UnexpectedEvent,
    >)
        requires
            old(self)@.phase == Phase::Source || old(self)@.phase == Phase::Parent || old(
                self,
            )@.phase == Phase::ParentCreation,
        ensures
            taken is Ok <==> accepts(old(self)@.phase, event@),
            taken is Ok ==> final(self)@ == old(self)@.advanced(event@, now),
            taken matches Err(e) ==> e.phase == old(self)@.phase && final(self)@ == old(self)@,
    {
        let refused: Result<(), UnexpectedEvent> = Err(UnexpectedEvent { phase: self.phase });
        match self.phase {
            Phase::Source => match event {
                Event::Source(kind) => {
                    self.on_source(kind, now);
                    Ok(())
                },
                _ => refused,
            },
            Phase::Parent => match event {
                Event::Parent(parent) => {
                    self.on_parent(parent, now);
                    Ok(())
                },
                _ => refused,
            },
            Phase::ParentCreation => match event {
                Event::Completed(outcome) => {
                    self.on_parent_creation(outcome, now);
                    Ok(())
                },
                _ => refused,
            },
            _ => refused,
        }
    }

    fn advance_file_copy(&mut self, event: Event, now: u64) -> (taken: Result<
        (),
        UnexpectedEvent,
    >)
        requires
            old(self)@.phase == Phase::FileCopy || old(self)@.phase == Phase::FileVerification
                || old(self)@.phase == Phase::FileCleanup,
        ensures
            taken is Ok <==> accepts(old(self)@.phase, event@),
            taken is Ok ==> final(self)@ == old(self)@.advanced(event@, now),
            taken matches Err(e) ==> e.phase == old(self)@.phase && final(self)@ == old(self)@,
    {
        let refused: Result<(), UnexpectedEvent> = Err(UnexpectedEvent { phase: self.phase });
        match self.phase {
            Phase::FileCopy => match event {
                Event::Copied(outcome) => {
                    self.on_file_copy(outcome, now);
                    Ok(())
                },
                _ => refused,
            },
            Phase::FileVerification => match event {
                Event::Verified(outcome) => {
                    self.on_file_verification(outcome, now);
                    Ok(())
                },
                _ => refused,
            },
            Phase::FileCleanup => match event {
                Event::Completed(_) => {
                    self.on_file_cleanup(now);
                    Ok(())
                },
                _ => refused,
            },
            _ => refused,
        }
    }

    fn advance_tree_copy(&mut self, event: Event, now: u64) -> (taken: Result<
        (),
        UnexpectedEvent,
    >)
        requires
            old(self)@.phase == Phase::RootCreation || old(self)@.phase == Phase::Walk || old(
                self,
            )@.phase == Phase::DirectoryCreation || old(self)@.phase == Phase::EntryCopy || old(
                self,
            )@.phase == Phase::EntryVerification || old(self)@.phase == Phase::EntryCleanup,
        ensures
            taken is Ok <==> accepts(old(self)@.phase, event@),
            taken is Ok ==> final(self)@ == old(self)@.advanced(event@, now),
            taken matches Err(e) ==> e.phase == old(self)@.phase && final(self)@ == old(self)@,
    {
        let refused: Result<(), UnexpectedEvent> = Err(UnexpectedEvent { phase: self.phase });
        match self.phase {
            Phase::RootCreation => match event {
                Event::Completed(outcome) => {
                    self.on_root_creation(outcome, now);
                    Ok(())
                },
                _ => refused,
            },
            Phase::Walk => match event {
                Event::Entry(entry) => {
                    self.on_entry(entry);
                    Ok(())
                },
                Event::WalkEnd => {
                    self.on_walk_end(now);
                    Ok(())
                },
                _ => refused,
            },
            Phase::DirectoryCreation => match event {
                Event::Completed(outcome) => {
                    self.on_directory_creation(outcome);
                    Ok(())
                },
                _ => refused,
            },
            Phase::EntryCopy => match event {
                Event::Copied(outcome) => {
                    self.on_entry_copy(outcome);
                    Ok(())
                },
                _ => refused,
            },
            Phase::EntryVerification => match event {
                Event::Verified(outcome) => {
                    self.on_entry_verification(outcome);
                    Ok(())
                },
                _ => refused,
            },
            Phase::EntryCleanup => match event {
                Event::Completed(_) => {
                    self.on_entry_cleanup();
                    Ok(())
                },
                _ => refused,
            },
            _ => refused,
        }
    }

    fn advance_move(&mut self, event: Event, now: u64) -> (taken: Result<(), UnexpectedEvent>)
        requires
            old(self)@.phase == Phase::TargetProbe || old(self)@.phase == Phase::Identity || old(
                self,
            )@.phase == Phase::Removal || old(self)@.phase == Phase::Rename || old(
                self,
            )@.phase == Phase::Confirmation || old(self)@.phase == Phase::Inventory,
        ensures
            taken is Ok <==> accepts(old(self)@.phase, event@),
            taken is Ok ==> final(self)@ == old(self)@.advanced(event@, now),
            taken matches Err(e) ==> e.phase == old(self)@.phase && final(self)@ == old(self)@,
    {
        let refused: Result<(), UnexpectedEvent> = Err(UnexpectedEvent { phase: self.phase });
        match self.phase {
            Phase::TargetProbe => match event {
                Event::Answer(taken) => {
                    self.on_target_probe(taken);
                    Ok(())
                },
                _ => refused,
            },
            Phase::Identity => match event {
                Event::Answer(same) => {
                    self.on_identity(same, now);
                    Ok(())
                },
                _ => refused,
            },
            Phase::Removal => match event {
                Event::Completed(outcome) => {
                    self.on_removal(outcome, now);
                    Ok(())
                },
                _ => refused,
            },
            Phase::Rename => match event {
                Event::Completed(outcome) => {
                    self.on_rename(outcome, now);
                    Ok(())
                },
                _ => refused,
            },
            Phase::Confirmation => match event {
                Event::Answer(present) => {
                    self.on_confirmation(present, now);
                    Ok(())
                },
                _ => refused,
            },
            Phase::Inventory => match event {
                Event::Entry(entry) => {
                    self.on_moved_entry(entry);
                    Ok(())
                },
                Event::WalkEnd => {
                    self.on_inventory_end(now);
                    Ok(())
                },
                _ => refused,
            },
            _ => refused,
        }
    }

    fn note(&mut self, line: String)
        ensures
            final(self)@ == old(self)@.note(line@),
    {
        push_line(&mut self.result.details, line);
    }

    fn note_words(&mut self, line: &str)
        ensures
            final(self)@ == old(self)@.note(line@),
    {
        self.note(String::from_str(line));
    }

    fn hint(&mut self, line: Option<String>)
        ensures
            final(self)@ == old(self)@.hint(crate::file_ops::optional_text(line)),
    {
        match line {
            Some(l) => self.note(l),
            None => {},
        }
    }

    fn fail(&mut self, message: String)
        ensures
            final(self)@ == old(self)@.fail(message@),
    {
        let line = messages::error_line(message.as_str());
        push_line(&mut self.result.details, line);
        self.result.error_message = Some(message);
    }

    fn fail_words(&mut self, message: &str)
        ensures
            final(self)@ == old(self)@.fail(message@),
    {
        self.fail(String::from_str(message));
    }

    fn blame(&mut self, message: String, line: String)
        ensures
            final(self)@ == old(self)@.blame(message@, line@),
    {
        push_line(&mut self.result.details, line);
        push_line(&mut self.failures, message);
    }

    fn record(&mut self, entry: FileEntry)
        ensures
            final(self)@ == old(self)@.record(entry@),
    {
        push_entry(&mut self.result.file_list, entry);
    }

    fn finish(&mut self, now: u64)
        ensures
            final(self)@ == old(self)@.finish(now),
    {
        self.phase = Phase::Finished;
        self.result.end_time = now;
    }

    fn begin(&mut self, now: u64, hash_verified: bool, files: usize, throttled: bool)
        ensures
            final(self)@ == old(self)@.begin(now, hash_verified, files, throttled),
    {
        self.result.hash_verified = hash_verified;
        self.result.files_processed = files;
        self.result.start_time = now;
        self.result.end_time = now;
        if throttled {
            let rate: Option<u64> = FileManager::compute_effective_bps(
                &self.operation.rate_limit,
                &self.global_rate_limit,
            );
            self.limiter = RateLimiter::new(rate, None, now);
        }
    }

    fn note_rate(&mut self)
        ensures
            final(self)@ == old(self)@.note_rate(),
    {
        let rate: Option<u64> = FileManager::compute_effective_bps(
            &self.operation.rate_limit,
            &self.global_rate_limit,
        );
        match rate {
            Some(limit) => {
                let line = messages::rate_note(self.directory, limit);
                self.note(line);
            },
            None => {},
        }
    }

    fn on_source(&mut self, kind: SourceKind, now: u64)
        ensures
            final(self)@ == old(self)@.after_source(kind, now),
    {
        proof {
            reveal(RunView::after_source);
        }
        match kind {
            SourceKind::Missing => {
                let message = messages::source_missing(self.operation.origin.as_str());
                self.fail(message);
                self.finish(now);
            },
            SourceKind::Other => {
                let message = messages::source_invalid(self.operation.origin.as_str());
                self.fail(message);
                self.finish(now);
            },
            SourceKind::File(size) => {
                self.directory = false;
                self.file_size = size;
                self.note(messages::source_is(false));
                self.phase = Phase::Parent;
            },
            SourceKind::Directory => {
                self.directory = true;
                self.file_size = 0;
                self.note(messages::source_is(true));
                self.phase = Phase::Parent;
            },
        }
    }

    fn on_parent(&mut self, parent: Option<String>, now: u64)
        ensures
            final(self)@ == old(self)@.after_parent(crate::file_ops::optional_text(parent), now),
    {
        proof {
            reveal(RunView::after_parent);
        }
        match parent {
            Some(p) => {
                let line = messages::creating_parent(p.as_str());
                self.parent = p;
                self.note(line);
                self.phase = Phase::ParentCreation;
            },
            None => {
                self.dispatch(now);
            },
        }
    }

    fn on_parent_creation(&mut self, outcome: Result<(), IoFailure>, now: u64)
        ensures
            final(self)@ == old(self)@.after_parent_creation(
                match outcome {
                    Ok(_) => Ok(()),
                    Err(e) => Err(e@),
                },
                now,
            ),
    {
        proof {
            reveal(RunView::after_parent_creation);
        }
        match outcome {
            Ok(_) => {
                self.note_words("  Parent directory created successfully");
                self.dispatch(now);
            },
            Err(e) => {
                let message = messages::parent_failed(self.parent.as_str(), e.message.as_str());
                self.fail(message);
                self.finish(now);
            },
        }
    }

    fn dispatch(&mut self, now: u64)
        ensures
            final(self)@ == old(self)@.dispatch(now),
    {
        proof {
            reveal(RunView::dispatch);
        }
        match self.operation.operation_type {
            OperationType::Copy => if self.directory {
                self.copy_directory(now)
            } else {
                self.copy_file(now)
            },
            OperationType::Move => if self.directory {
                self.move_directory(now)
            } else {
                self.move_file(now)
            },
        }
    }

    fn copy_file(&mut self, now: u64)
        ensures
            final(self)@ == old(self)@.copy_file(now),
    {
        proof {
            reveal(RunView::copy_file);
        }
        self.begin(now, false, 1, true);
        self.result.total_size = self.file_size;
        self.note(messages::file_size(self.file_size));
        self.note_rate();
        self.note_words("  Starting file copy...");
        self.phase = Phase::FileCopy;
    }

    fn on_file_copy(&mut self, outcome: Result<u64, IoFailure>, now: u64)
        ensures
            final(self)@ == old(self)@.after_file_copy(
                match outcome {
                    Ok(n) => Ok(n),
                    Err(e) => Err(e@),
                },
                now,
            ),
    {
        proof {
            reveal(RunView::after_file_copy);
        }
        match outcome {
            Ok(bytes) => {
                self.copied = bytes;
                self.note(messages::copy_completed(bytes));
                self.result.total_size = bytes;
                self.note_words("  Verifying file integrity...");
                self.phase = Phase::FileVerification;
            },
            Err(e) => {
                let message = messages::copy_failed(
                    e.message.as_str(),
                    self.operation.origin.as_str(),
                    self.operation.destination.as_str(),
                );
                let entry = entry_failed(
                    self.operation.origin.as_str(),
                    self.operation.destination.as_str(),
                    self.file_size,
                    message.clone(),
                );
                self.fail(message);
                self.record(entry);
                self.hint(advice_after_copy(e.kind));
                self.finish(now);
            },
        }
    }

    fn on_file_verification(&mut self, outcome: Result<bool, IoFailure>, now: u64)
        ensures
            final(self)@ == old(self)@.after_file_verification(
                match outcome {
                    Ok(same) => Ok(same),
                    Err(e) => Err(e@),
                },
                now,
            ),
    {
        proof {
            reveal(RunView::after_file_verification);
        }
        match outcome {
            Ok(true) => {
                let entry = entry_ok(
                    self.operation.origin.as_str(),
                    self.operation.destination.as_str(),
                    self.copied,
                );
                self.note_words("  Verification successful: Files match");
                self.result.success = true;
                self.result.hash_verified = true;
                self.record(entry);
                self.finish(now);
            },
            Ok(false) => {
                self.reject_copy(
                    String::from_str("Hash verification failed - files are different"),
                );
            },
            Err(e) => {
                self.reject_copy(messages::verification_error(e.message.as_str()));
            },
        }
    }

    fn reject_copy(&mut self, message: String)
        ensures
            final(self)@ == old(self)@.reject_copy(message@),
    {
        let entry = entry_failed(
            self.operation.origin.as_str(),
            self.operation.destination.as_str(),
            self.copied,
            message.clone(),
        );
        self.fail(message);
        self.record(entry);
        self.phase = Phase::FileCleanup;
    }

    fn on_file_cleanup(&mut self, now: u64)
        ensures
            final(self)@ == old(self)@.after_file_cleanup(now),
    {
        proof {
            reveal(RunView::after_file_cleanup);
        }
        self.note_words("  Cleaned up failed copy");
        self.finish(now);
    }

    fn copy_directory(&mut self, now: u64)
        ensures
            final(self)@ == old(self)@.copy_directory(now),
    {
        proof {
            reveal(RunView::copy_directory);
        }
        self.begin(now, true, 0, true);
        self.note_words("  Starting directory copy...");
        self.note_rate();
        self.phase = Phase::RootCreation;
    }

    fn on_root_creation(&mut self, outcome: Result<(), IoFailure>, now: u64)
        ensures
            final(self)@ == old(self)@.after_root_creation(
                match outcome {
                    Ok(_) => Ok(()),
                    Err(e) => Err(e@),
                },
                now,
            ),
    {
        proof {
            reveal(RunView::after_root_creation);
        }
        match outcome {
            Ok(_) => {
                self.note_words("  Destination directory created");
                self.phase = Phase::Walk;
            },
            Err(e) => {
                self.fail(messages::root_failed(e.message.as_str()));
                self.finish(now);
            },
        }
    }

    fn on_entry(&mut self, entry: Result<WalkEntry, String>)
        ensures
            final(self)@ == old(self)@.after_entry(
                match entry {
                    Ok(e) => Ok(e@),
                    Err(words) => Err(words@),
                },
            ),
    {
        proof {
            reveal(RunView::after_entry);
        }
        match entry {
            Err(words) => {
                let message = messages::entry_unreadable(words.as_str());
                let line = messages::entry_unreadable_warning(words.as_str());
                self.blame(message, line);
                self.all_successful = false;
            },
            Ok(e) => {
                if e.path == self.operation.origin {
                    return ;
                }
                match e.counterpart {
                    None => {
                        let message = messages::no_relative_path(e.path.as_str());
                        let line = messages::warning_line(message.as_str());
                        self.blame(message, line);
                    },
                    Some(target) => match e.kind {
                        EntryKind::Directory => {
                            self.entry_source = e.path;
                            self.entry_target = target;
                            self.phase = Phase::DirectoryCreation;
                        },
                        EntryKind::File(length) => {
                            let size: u64 = match length {
                                Some(n) => n,
                                None => 0,
                            };
                            let files: usize = self.result.files_processed.saturating_add(1);
                            let line = messages::copying_file(files, e.path.as_str());
                            self.entry_source = e.path;
                            self.entry_target = target;
                            self.file_size = size;
                            self.result.files_processed = files;
                            self.result.total_size = self.result.total_size.saturating_add(size);
                            self.note(line);
                            self.phase = Phase::EntryCopy;
                        },
                        EntryKind::Other => {},
                    },
                }
            },
        }
    }

    fn on_directory_creation(&mut self, outcome: Result<(), IoFailure>)
        ensures
            final(self)@ == old(self)@.after_directory_creation(
                match outcome {
                    Ok(_) => Ok(()),
                    Err(e) => Err(e@),
                },
            ),
    {
        proof {
            reveal(RunView::after_directory_creation);
        }
        match outcome {
            Ok(_) => {
                let line = messages::directory_created(self.entry_target.as_str());
                self.note(line);
                self.phase = Phase::Walk;
            },
            Err(e) => {
                let message = messages::directory_failed(
                    self.entry_target.as_str(),
                    e.message.as_str(),
                );
                let line = messages::directory_failed_line(message.as_str());
                self.blame(message, line);
                self.phase = Phase::Walk;
            },
        }
    }

    fn on_entry_copy(&mut self, outcome: Result<u64, IoFailure>)
        ensures
            final(self)@ == old(self)@.after_entry_copy(
                match outcome {
                    Ok(n) => Ok(n),
                    Err(e) => Err(e@),
                },
            ),
    {
        proof {
            reveal(RunView::after_entry_copy);
        }
        match outcome {
            Ok(bytes) => {
                self.copied = bytes;
                self.note(messages::copied_bytes(bytes));
                self.phase = Phase::EntryVerification;
            },
            Err(e) => {
                let message = messages::entry_copy_failed(
                    self.entry_source.as_str(),
                    self.entry_target.as_str(),
                    e.message.as_str(),
                );
                let line = messages::error_line(message.as_str());
                let entry = entry_failed(
                    self.entry_source.as_str(),
                    self.entry_target.as_str(),
                    self.file_size,
                    message.clone(),
                );
                self.blame(message, line);
                self.all_successful = false;
                self.record(entry);
                self.phase = Phase::Walk;
            },
        }
    }

    fn on_entry_verification(&mut self, outcome: Result<bool, IoFailure>)
        ensures
            final(self)@ == old(self)@.after_entry_verification(
                match outcome {
                    Ok(same) => Ok(same),
                    Err(e) => Err(e@),
                },
            ),
    {
        proof {
            reveal(RunView::after_entry_verification);
        }
        match outcome {
            Ok(true) => {
                let entry = entry_ok(
                    self.entry_source.as_str(),
                    self.entry_target.as_str(),
                    self.copied,
                );
                self.note_words("    Verification successful");
                self.record(entry);
                self.phase = Phase::Walk;
            },
            Ok(false) => {
                let message = messages::entry_mismatch(self.entry_source.as_str());
                self.reject_entry(message, String::from_str("Hash verification failed"));
            },
            Err(e) => {
                let message = messages::entry_verification_error(
                    self.entry_source.as_str(),
                    e.message.as_str(),
                );
                self.reject_entry(message, messages::verification_error(e.message.as_str()));
            },
        }
    }

    fn reject_entry(&mut self, message: String, reason: String)
        ensures
            final(self)@ == old(self)@.blame(
                message@,
                messages::error_line_text(message@),
            ).spoil().verify(false).record(
                bad_entry(
                    old(self)@.entry_source,
                    old(self)@.entry_target,
                    old(self)@.copied,
                    reason@,
                ),
            ).goto(Phase::EntryCleanup),
    {
        let line = messages::error_line(message.as_str());
        let entry = entry_failed(
            self.entry_source.as_str(),
            self.entry_target.as_str(),
            self.copied,
            reason,
        );
        self.blame(message, line);
        self.all_successful = false;
        self.result.hash_verified = false;
        self.record(entry);
        self.phase = Phase::EntryCleanup;
    }

    fn on_entry_cleanup(&mut self)
        ensures
            final(self)@ == old(self)@.after_entry_cleanup(),
    {
        proof {
            reveal(RunView::after_entry_cleanup);
        }
        self.note_words("    Cleaned up failed copy");
        self.phase = Phase::Walk;
    }

    fn on_walk_end(&mut self, now: u64)
        ensures
            final(self)@ == old(self)@.after_walk(now),
    {
        proof {
            reveal(RunView::after_walk);
        }
        self.note(messages::files_processed(self.result.files_processed));
        self.note(messages::total_size(self.result.total_size));
        self.result.success = self.all_successful;
        if self.failures.len() > 0 {
            self.result.error_message = Some(join(&self.failures, "; "));
        }
        self.finish(now);
    }

    fn move_file(&mut self, now: u64)
        ensures
            final(self)@ == old(self)@.move_file(now),
    {
        proof {
            reveal(RunView::move_file);
        }
        self.begin(now, true, 1, false);
        self.result.total_size = self.file_size;
        self.note(messages::file_size(self.file_size));
        self.note_words("  Starting file move...");
        self.phase = Phase::TargetProbe;
    }

    fn move_directory(&mut self, now: u64)
        ensures
            final(self)@ == old(self)@.move_directory(now),
    {
        proof {
            reveal(RunView::move_directory);
        }
        self.begin(now, true, 0, false);
        self.note_words("  Starting directory move...");
        self.phase = Phase::TargetProbe;
    }

    fn on_target_probe(&mut self, taken: bool)
        ensures
            final(self)@ == old(self)@.after_target_probe(taken),
    {
        proof {
            reveal(RunView::after_target_probe);
        }
        if taken {
            self.note_words("  WARNING: Destination already exists");
            self.phase = if self.directory {
                Phase::Identity
            } else {
                Phase::Removal
            };
        } else {
            self.phase = Phase::Rename;
        }
    }

    fn on_identity(&mut self, same: bool, now: u64)
        ensures
            final(self)@ == old(self)@.after_identity(same, now),
    {
        proof {
            reveal(RunView::after_identity);
        }
        if same {
            self.fail_words("Source and destination are the same directory");
            self.finish(now);
        } else {
            self.phase = Phase::Removal;
        }
    }

    fn on_removal(&mut self, outcome: Result<(), IoFailure>, now: u64)
        ensures
            final(self)@ == old(self)@.after_removal(
                match outcome {
                    Ok(_) => Ok(()),
                    Err(e) => Err(e@),
                },
                now,
            ),
    {
        proof {
            reveal(RunView::after_removal);
        }
        match outcome {
            Ok(_) => {
                if self.directory {
                    self.note_words("  Removed existing destination directory");
                } else {
                    self.note_words("  Removed existing destination file");
                }
                self.phase = Phase::Rename;
            },
            Err(e) => {
                self.fail(messages::cannot_remove(e.message.as_str()));
                self.finish(now);
            },
        }
    }

    fn on_rename(&mut self, outcome: Result<(), IoFailure>, now: u64)
        ensures
            final(self)@ == old(self)@.after_rename(
                match outcome {
                    Ok(_) => Ok(()),
                    Err(e) => Err(e@),
                },
                now,
            ),
    {
        proof {
            reveal(RunView::after_rename);
        }
        match outcome {
            Ok(_) => {
                self.note_words("  Move operation completed");
                self.phase = Phase::Confirmation;
            },
            Err(e) => {
                let message = messages::move_failed(
                    e.message.as_str(),
                    self.operation.origin.as_str(),
                    self.operation.destination.as_str(),
                );
                let entry = entry_failed(
                    self.operation.origin.as_str(),
                    self.operation.destination.as_str(),
                    self.file_size,
                    message.clone(),
                );
                self.fail(message);
                if !self.directory {
                    self.record(entry);
                }
                self.hint(advice_after_move(self.directory, e.kind));
                self.finish(now);
            },
        }
    }

    fn on_confirmation(&mut self, present: bool, now: u64)
        ensures
            final(self)@ == old(self)@.after_confirmation(present, now),
    {
        proof {
            reveal(RunView::after_confirmation);
        }
        if present {
            self.result.success = true;
            self.note_words("  Verification: Destination exists");
            if self.directory {
                self.phase = Phase::Inventory;
            } else {
                let entry = entry_ok(
                    self.operation.origin.as_str(),
                    self.operation.destination.as_str(),
                    self.file_size,
                );
                self.record(entry);
                self.finish(now);
            }
        } else {
            if self.directory {
                self.fail_words("Destination directory doesn't exist after move");
            } else {
                self.fail_words("Destination file doesn't exist after move");
            }
            self.finish(now);
        }
    }

    fn on_moved_entry(&mut self, entry: Result<WalkEntry, String>)
        ensures
            final(self)@ == old(self)@.after_moved_entry(
                match entry {
                    Ok(e) => Ok(e@),
                    Err(words) => Err(words@),
                },
            ),
    {
        proof {
            reveal(RunView::after_moved_entry);
        }
        match entry {
            Ok(e) => match e.kind {
                EntryKind::File(length) => {
                    self.result.files_processed = self.result.files_processed.saturating_add(1);
                    match length {
                        Some(size) => {
                            self.result.total_size = self.result.total_size.saturating_add(size);
                            let listed = match e.counterpart {
                                Some(before) => entry_ok(before.as_str(), e.path.as_str(), size),
                                None => entry_ok(e.path.as_str(), e.path.as_str(), size),
                            };
                            self.record(listed);
                        },
                        None => {},
                    }
                },
                _ => {},
            },
            Err(_) => {},
        }
    }

    fn on_inventory_end(&mut self, now: u64)
        ensures
            final(self)@ == old(self)@.after_inventory(now),
    {
        proof {
            reveal(RunView::after_inventory);
        }
        self.note(messages::files_moved(self.result.files_processed));
        self.note(messages::total_size(self.result.total_size));
        self.finish(now);
    }
}

} // verus!
