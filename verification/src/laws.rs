//! What holds of every run, whatever the driver reports.
//!
//! The laws are stated over the states of a run and proved from the steps
//! between them. [`RunView::consistent`] is the invariant that carries
//! them: it holds of a run that has just been opened and is kept by every
//! step.

use crate::config::{FileOperationView, OperationType, RateLimit};
use crate::events::{accepts, ActionView, EventView, Phase, SourceKind, WalkEntryView};
use crate::file_ops::{FileEntryView, IoFailureView};
use crate::messages;
use crate::state::{opened, RunView};
use vstd::prelude::*;

verus! {

/// True when every file of the list came through.
pub open spec fn all_good(list: Seq<FileEntryView>) -> bool {
    forall|i: int| 0 <= i < list.len() ==> (#[trigger] list[i]).success
}

/// True of the phases before a transfer has begun.
pub open spec fn prepares(phase: Phase) -> bool {
    phase == Phase::Source || phase == Phase::Parent || phase == Phase::ParentCreation
}

/// True of the phases of the copy of a single file.
pub open spec fn copies_file(phase: Phase) -> bool {
    phase == Phase::FileCopy || phase == Phase::FileVerification || phase == Phase::FileCleanup
}

/// True of the phases of the copy of a directory.
pub open spec fn copies_tree(phase: Phase) -> bool {
    phase == Phase::RootCreation || phase == Phase::Walk || phase == Phase::DirectoryCreation
        || phase == Phase::EntryCopy || phase == Phase::EntryVerification || phase
        == Phase::EntryCleanup
}

/// True of the phases of a move.
pub open spec fn moves(phase: Phase) -> bool {
    phase == Phase::TargetProbe || phase == Phase::Identity || phase == Phase::Removal || phase
        == Phase::Rename || phase == Phase::Confirmation || phase == Phase::Inventory
}

impl RunView {
    /// The result names the operation that the run carries out.
    pub open spec fn names_operation(self) -> bool {
        &&& self.result.operation_name == self.operation.name
        &&& self.result.source == self.operation.origin
        &&& self.result.destination == self.operation.destination
        &&& self.result.operation_type == self.operation.operation_type
    }

    /// What holds of the result in the phase in which the run is.
    pub open spec fn fits_phase(self) -> bool {
        let result = self.result;
        if prepares(self.phase) {
            &&& !result.success
            &&& !result.hash_verified
            &&& result.error_message is None
            &&& result.file_list.len() == 0
            &&& self.failures.len() == 0
            &&& self.all_successful
        } else if copies_file(self.phase) {
            &&& self.operation.operation_type == OperationType::Copy
            &&& !self.directory
            &&& !result.success
            &&& !result.hash_verified
            &&& self.phase != Phase::FileCleanup ==> result.file_list.len() == 0
            &&& self.phase == Phase::FileCleanup ==> result.error_message is Some
        } else if copies_tree(self.phase) {
            &&& self.operation.operation_type == OperationType::Copy
            &&& self.directory
            &&& !result.success
            &&& self.all_successful ==> result.hash_verified && all_good(result.file_list)
            &&& !self.all_successful ==> self.failures.len() > 0
        } else if moves(self.phase) {
            &&& self.operation.operation_type == OperationType::Move
            &&& result.hash_verified
            &&& self.phase == Phase::Identity || self.phase == Phase::Inventory ==> self.directory
            &&& result.success == (self.phase == Phase::Inventory)
            &&& self.phase != Phase::Inventory ==> result.file_list.len() == 0
            &&& all_good(result.file_list)
        } else {
            &&& !result.success ==> result.error_message is Some
            &&& result.success ==> result.hash_verified && all_good(result.file_list)
        }
    }

    /// The invariant of a run.
    pub open spec fn consistent(self) -> bool {
        self.names_operation() && self.fits_phase()
    }
}

/// A run that has just been opened is consistent and asks first what lies
/// at the origin.
pub proof fn lemma_opened_consistent(operation: FileOperationView, global: RateLimit, start: u64)
    ensures
        opened(operation, global, start).consistent(),
        opened(operation, global, start).pending() == (ActionView::ProbeSource {
            path: operation.origin,
        }),
{
}

/// What holds of a run before its transfer has begun, whatever its phase.
pub open spec fn blank(run: RunView) -> bool {
    &&& run.names_operation()
    &&& !run.result.success
    &&& !run.result.hash_verified
    &&& run.result.error_message is None
    &&& run.result.file_list.len() == 0
    &&& run.failures.len() == 0
    &&& run.all_successful
}

proof fn lemma_dispatch_keeps(run: RunView, now: u64)
    requires
        blank(run),
    ensures
        run.dispatch(now).consistent(),
{
    reveal(RunView::dispatch);
    reveal(RunView::copy_file);
    reveal(RunView::copy_directory);
    reveal(RunView::move_file);
    reveal(RunView::move_directory);
}

proof fn lemma_source_keeps(run: RunView, kind: SourceKind, now: u64)
    requires
        run.consistent(),
        run.phase == Phase::Source,
    ensures
        run.after_source(kind, now).consistent(),
{
    reveal(RunView::after_source);
}

proof fn lemma_parent_keeps(run: RunView, parent: Option<Seq<char>>, now: u64)
    requires
        run.consistent(),
        run.phase == Phase::Parent,
    ensures
        run.after_parent(parent, now).consistent(),
{
    reveal(RunView::after_parent);
    lemma_dispatch_keeps(run, now);
}

proof fn lemma_parent_creation_keeps(run: RunView, outcome: Result<(), IoFailureView>, now: u64)
    requires
        run.consistent(),
        run.phase == Phase::ParentCreation,
    ensures
        run.after_parent_creation(outcome, now).consistent(),
{
    reveal(RunView::after_parent_creation);
    lemma_dispatch_keeps(run.note("  Parent directory created successfully"@), now);
}

proof fn lemma_preparation_keeps(run: RunView, event: EventView, now: u64)
    requires
        run.consistent(),
        prepares(run.phase),
        accepts(run.phase, event),
    ensures
        run.advanced(event, now).consistent(),
{
    match event {
        EventView::Source(kind) => lemma_source_keeps(run, kind, now),
        EventView::Parent(parent) => lemma_parent_keeps(run, parent, now),
        EventView::Completed(outcome) => lemma_parent_creation_keeps(run, outcome, now),
        _ => {},
    }
}

proof fn lemma_file_copy_keeps(run: RunView, event: EventView, now: u64)
    requires
        run.consistent(),
        copies_file(run.phase),
        accepts(run.phase, event),
    ensures
        run.advanced(event, now).consistent(),
{
    reveal(RunView::after_file_copy);
    reveal(RunView::after_file_verification);
    reveal(RunView::after_file_cleanup);
}

proof fn lemma_entry_keeps(run: RunView, entry: Result<WalkEntryView, Seq<char>>)
    requires
        run.consistent(),
        run.phase == Phase::Walk,
    ensures
        run.after_entry(entry).consistent(),
{
    reveal(RunView::after_entry);
}

proof fn lemma_walk_end_keeps(run: RunView, now: u64)
    requires
        run.consistent(),
        run.phase == Phase::Walk,
    ensures
        run.after_walk(now).consistent(),
{
    reveal(RunView::after_walk);
}

proof fn lemma_entry_copy_keeps(run: RunView, outcome: Result<u64, IoFailureView>)
    requires
        run.consistent(),
        run.phase == Phase::EntryCopy,
    ensures
        run.after_entry_copy(outcome).consistent(),
{
    reveal(RunView::after_entry_copy);
}

proof fn lemma_entry_verification_keeps(run: RunView, outcome: Result<bool, IoFailureView>)
    requires
        run.consistent(),
        run.phase == Phase::EntryVerification,
    ensures
        run.after_entry_verification(outcome).consistent(),
{
    reveal(RunView::after_entry_verification);
}

proof fn lemma_tree_copy_keeps(run: RunView, event: EventView, now: u64)
    requires
        run.consistent(),
        copies_tree(run.phase),
        accepts(run.phase, event),
    ensures
        run.advanced(event, now).consistent(),
{
    match (run.phase, event) {
        (Phase::Walk, EventView::Entry(entry)) => lemma_entry_keeps(run, entry),
        (Phase::Walk, EventView::WalkEnd) => lemma_walk_end_keeps(run, now),
        (Phase::EntryCopy, EventView::Copied(outcome)) => lemma_entry_copy_keeps(run, outcome),
        (Phase::EntryVerification, EventView::Verified(outcome)) =>
            lemma_entry_verification_keeps(run, outcome),
        _ => {
            reveal(RunView::after_root_creation);
            reveal(RunView::after_directory_creation);
            reveal(RunView::after_entry_cleanup);
        },
    }
}

proof fn lemma_rename_keeps(run: RunView, outcome: Result<(), IoFailureView>, now: u64)
    requires
        run.consistent(),
        run.phase == Phase::Rename,
    ensures
        run.after_rename(outcome, now).consistent(),
{
    reveal(RunView::after_rename);
}

proof fn lemma_confirmation_keeps(run: RunView, present: bool, now: u64)
    requires
        run.consistent(),
        run.phase == Phase::Confirmation,
    ensures
        run.after_confirmation(present, now).consistent(),
{
    reveal(RunView::after_confirmation);
}

proof fn lemma_moved_entry_keeps(run: RunView, entry: Result<WalkEntryView, Seq<char>>)
    requires
        run.consistent(),
        run.phase == Phase::Inventory,
    ensures
        run.after_moved_entry(entry).consistent(),
{
    reveal(RunView::after_moved_entry);
}

proof fn lemma_move_keeps(run: RunView, event: EventView, now: u64)
    requires
        run.consistent(),
        moves(run.phase),
        accepts(run.phase, event),
    ensures
        run.advanced(event, now).consistent(),
{
    match (run.phase, event) {
        (Phase::Rename, EventView::Completed(outcome)) => lemma_rename_keeps(run, outcome, now),
        (Phase::Confirmation, EventView::Answer(present)) => lemma_confirmation_keeps(
            run,
            present,
            now,
        ),
        (Phase::Inventory, EventView::Entry(entry)) => lemma_moved_entry_keeps(run, entry),
        _ => {
            reveal(RunView::after_target_probe);
            reveal(RunView::after_identity);
            reveal(RunView::after_removal);
            reveal(RunView::after_inventory);
        },
    }
}

/// Every step keeps a run consistent.
pub proof fn lemma_step_keeps_consistent(run: RunView, event: EventView, now: u64)
    requires
        run.consistent(),
        accepts(run.phase, event),
    ensures
        run.advanced(event, now).consistent(),
{
    if prepares(run.phase) {
        lemma_preparation_keeps(run, event, now);
    } else if copies_file(run.phase) {
        lemma_file_copy_keeps(run, event, now);
    } else if copies_tree(run.phase) {
        lemma_tree_copy_keeps(run, event, now);
    } else {
        lemma_move_keeps(run, event, now);
    }
}

/// The state in which a run is after the driver has handed it `events` one
/// after the other, each with the time at which it came in. An event that
/// the run refuses leaves it as it was.
pub open spec fn replayed(run: RunView, events: Seq<(EventView, u64)>) -> RunView
    decreases events.len(),
{
    if events.len() == 0 {
        run
    } else {
        let before = replayed(run, events.drop_last());
        if accepts(before.phase, events.last().0) {
            before.advanced(events.last().0, events.last().1)
        } else {
            before
        }
    }
}

/// Whatever the driver reports, and in whatever order, a run stays
/// consistent from the moment it is opened, and the result goes on naming
/// the operation that the run was opened for.
pub proof fn lemma_every_state_consistent(
    operation: FileOperationView,
    global: RateLimit,
    start: u64,
    events: Seq<(EventView, u64)>,
)
    ensures
        replayed(opened(operation, global, start), events).consistent(),
        replayed(opened(operation, global, start), events).operation == operation,
    decreases events.len(),
{
    if events.len() > 0 {
        lemma_every_state_consistent(operation, global, start, events.drop_last());
        let before = replayed(opened(operation, global, start), events.drop_last());
        if accepts(before.phase, events.last().0) {
            lemma_step_keeps_consistent(before, events.last().0, events.last().1);
            lemma_step_keeps_operation(before, events.last().0, events.last().1);
        }
    }
}

/// No step changes the operation that a run carries out, nor the global
/// limit under which it runs.
pub proof fn lemma_step_keeps_operation(run: RunView, event: EventView, now: u64)
    ensures
        run.advanced(event, now).operation == run.operation,
        run.advanced(event, now).global_rate_limit == run.global_rate_limit,
{
    reveal(RunView::after_source);
    reveal(RunView::after_parent);
    reveal(RunView::after_parent_creation);
    reveal(RunView::dispatch);
    reveal(RunView::copy_file);
    reveal(RunView::copy_directory);
    reveal(RunView::move_file);
    reveal(RunView::move_directory);
    reveal(RunView::after_file_copy);
    reveal(RunView::after_file_verification);
    reveal(RunView::after_file_cleanup);
    reveal(RunView::after_root_creation);
    reveal(RunView::after_entry);
    reveal(RunView::after_directory_creation);
    reveal(RunView::after_entry_copy);
    reveal(RunView::after_entry_verification);
    reveal(RunView::after_entry_cleanup);
    reveal(RunView::after_walk);
    reveal(RunView::after_target_probe);
    reveal(RunView::after_identity);
    reveal(RunView::after_removal);
    reveal(RunView::after_rename);
    reveal(RunView::after_confirmation);
    reveal(RunView::after_moved_entry);
    reveal(RunView::after_inventory);
}

/// Whatever the driver reports, a run that has finished has either
/// succeeded or says what went wrong; and where it has succeeded, it counts
/// as verified and every file that it lists came through.
pub proof fn lemma_every_finished_run(
    operation: FileOperationView,
    global: RateLimit,
    start: u64,
    events: Seq<(EventView, u64)>,
)
    requires
        replayed(opened(operation, global, start), events).phase == Phase::Finished,
    ensures
        ({
            let result = replayed(opened(operation, global, start), events).result;
            &&& result.success || result.error_message is Some
            &&& result.success ==> result.hash_verified && all_good(result.file_list)
            &&& result.operation_name == operation.name
            &&& result.source == operation.origin
            &&& result.destination == operation.destination
            &&& result.operation_type == operation.operation_type
        }),
{
    lemma_every_state_consistent(operation, global, start, events);
}

/// A finished run has either succeeded or says what went wrong. A run that
/// has succeeded counts as verified, and every file that it lists came
/// through. A finished run takes no more events.
pub proof fn lemma_finished_result(run: RunView)
    requires
        run.consistent(),
        run.phase == Phase::Finished,
    ensures
        run.result.success || run.result.error_message is Some,
        run.result.success ==> run.result.hash_verified,
        run.result.success ==> all_good(run.result.file_list),
        run.pending() == ActionView::Finish,
        forall|event: EventView| !accepts(run.phase, event),
{
}

/// A missing origin, or one that is neither file nor directory, ends the
/// run at once: the result is a failure with no file in it, and the only
/// request that the run has ever made was to look at the origin.
pub proof fn lemma_bad_source_ends_run(
    operation: FileOperationView,
    global: RateLimit,
    start: u64,
    kind: SourceKind,
    now: u64,
)
    requires
        kind == SourceKind::Missing || kind == SourceKind::Other,
    ensures
        !opened(operation, global, start).pending().mutates(),
        ({
            let end = opened(operation, global, start).advanced(EventView::Source(kind), now);
            &&& end.phase == Phase::Finished
            &&& !end.result.success
            &&& !end.result.hash_verified
            &&& end.result.file_list.len() == 0
            &&& end.result.end_time == now
            &&& end.result.error_message == Some(
                if kind == SourceKind::Missing {
                    messages::source_missing_text(operation.origin)
                } else {
                    messages::source_invalid_text(operation.origin)
                },
            )
        }),
{
    reveal(RunView::after_source);
}

/// A parent directory that cannot be made ends the run before anything is
/// transferred.
pub proof fn lemma_parent_failure_ends_run(run: RunView, failure: IoFailureView, now: u64)
    requires
        run.consistent(),
        run.phase == Phase::ParentCreation,
    ensures
        ({
            let end = run.advanced(EventView::Completed(Err(failure)), now);
            &&& end.phase == Phase::Finished
            &&& !end.result.success
            &&& end.result.file_list.len() == 0
            &&& end.result.error_message == Some(
                messages::parent_failed_text(run.parent, failure.message),
            )
        }),
{
    reveal(RunView::after_parent_creation);
}

/// A copy that went through is verified next, be it the single file or a
/// file of a tree.
pub proof fn lemma_copy_is_verified(run: RunView, bytes: u64, now: u64)
    requires
        run.phase == Phase::FileCopy || run.phase == Phase::EntryCopy,
    ensures
        run.advanced(EventView::Copied(Ok(bytes)), now).pending() is Verify,
        run.phase == Phase::FileCopy ==> run.advanced(
            EventView::Copied(Ok(bytes)),
            now,
        ).pending() == (ActionView::Verify {
            source: run.operation.origin,
            target: run.operation.destination,
        }),
        run.phase == Phase::EntryCopy ==> run.advanced(
            EventView::Copied(Ok(bytes)),
            now,
        ).pending() == (ActionView::Verify { source: run.entry_source, target: run.entry_target }),
{
    reveal(RunView::after_file_copy);
    reveal(RunView::after_entry_copy);
}

/// A copy of a single file that is not known to match its source is
/// removed: the run asks for the destination to be discarded, and ends as a
/// failure that is not verified, with the one file listed as failed.
pub proof fn lemma_unverified_copy_is_discarded(
    run: RunView,
    outcome: Result<bool, IoFailureView>,
    cleanup: Result<(), IoFailureView>,
    verified_at: u64,
    now: u64,
)
    requires
        run.consistent(),
        run.phase == Phase::FileVerification,
        outcome != Ok::<bool, IoFailureView>(true),
    ensures
        ({
            let rejected = run.advanced(EventView::Verified(outcome), verified_at);
            let end = rejected.advanced(EventView::Completed(cleanup), now);
            &&& rejected.pending() == (ActionView::Discard { path: run.operation.destination })
            &&& end.phase == Phase::Finished
            &&& !end.result.success
            &&& !end.result.hash_verified
            &&& end.result.error_message is Some
            &&& end.result.file_list.len() == 1
            &&& !end.result.file_list[0].success
            &&& !end.result.file_list[0].hash_verified
        }),
{
    reveal(RunView::after_file_verification);
    reveal(RunView::after_file_cleanup);
}

/// A copy of a single file that matches its source ends the run as a
/// verified success with exactly that file listed.
pub proof fn lemma_verified_copy_succeeds(run: RunView, now: u64)
    requires
        run.consistent(),
        run.phase == Phase::FileVerification,
    ensures
        ({
            let end = run.advanced(EventView::Verified(Ok(true)), now);
            &&& end.phase == Phase::Finished
            &&& end.result.success
            &&& end.result.hash_verified
            &&& end.result.file_list.len() == 1
            &&& end.result.file_list[0].success
            &&& end.result.file_list[0].hash_verified
            &&& end.result.file_list[0].size == run.copied
        }),
{
    reveal(RunView::after_file_verification);
}

/// In a directory copy a file that is not known to match its source is
/// discarded and marks the whole operation as failed and unverified, and
/// the walk goes on.
pub proof fn lemma_unverified_entry_is_discarded(
    run: RunView,
    outcome: Result<bool, IoFailureView>,
    cleanup: Result<(), IoFailureView>,
    now: u64,
)
    requires
        run.consistent(),
        run.phase == Phase::EntryVerification,
        outcome != Ok::<bool, IoFailureView>(true),
    ensures
        ({
            let rejected = run.advanced(EventView::Verified(outcome), now);
            let next = rejected.advanced(EventView::Completed(cleanup), now);
            &&& rejected.pending() == (ActionView::Discard { path: run.entry_target })
            &&& !rejected.all_successful
            &&& !rejected.result.hash_verified
            &&& rejected.result.file_list.len() == run.result.file_list.len() + 1
            &&& !rejected.result.file_list.last().success
            &&& next.phase == Phase::Walk
        }),
{
    reveal(RunView::after_entry_verification);
    reveal(RunView::after_entry_cleanup);
}

/// No failure stops the walk of a directory copy: whatever comes in while
/// the tree is copied, the run goes on with the tree and does not finish
/// before the walk has ended.
pub proof fn lemma_walk_goes_on(run: RunView, event: EventView, now: u64)
    requires
        run.consistent(),
        copies_tree(run.phase),
        run.phase != Phase::RootCreation,
        accepts(run.phase, event),
        event != EventView::WalkEnd,
    ensures
        copies_tree(run.advanced(event, now).phase),
        run.advanced(event, now).phase != Phase::RootCreation,
{
    reveal(RunView::after_entry);
    reveal(RunView::after_directory_creation);
    reveal(RunView::after_entry_copy);
    reveal(RunView::after_entry_verification);
    reveal(RunView::after_entry_cleanup);
}

/// A directory copy succeeds exactly when no file of the tree has failed
/// and no entry was unreadable. Its error is all that was blamed, in order,
/// joined by `"; "`; there is none where nothing was blamed.
pub proof fn lemma_tree_outcome(run: RunView, now: u64)
    requires
        run.consistent(),
        run.phase == Phase::Walk,
    ensures
        ({
            let end = run.advanced(EventView::WalkEnd, now);
            &&& end.phase == Phase::Finished
            &&& end.result.success == run.all_successful
            &&& end.result.success ==> all_good(end.result.file_list)
            &&& !all_good(run.result.file_list) ==> !end.result.success
            &&& end.result.file_list == run.result.file_list
            &&& end.result.files_processed == run.result.files_processed
            &&& run.failures.len() > 0 ==> end.result.error_message == Some(
                crate::text::joined(run.failures, "; "@),
            )
            &&& run.failures.len() == 0 ==> end.result.error_message == run.result.error_message
        }),
{
    reveal(RunView::after_walk);
}

/// Once a directory copy has failed or lost its verification, it stays so
/// to the end of the walk.
pub proof fn lemma_tree_failure_stays(run: RunView, event: EventView, now: u64)
    requires
        run.consistent(),
        copies_tree(run.phase),
        run.phase != Phase::RootCreation,
        accepts(run.phase, event),
    ensures
        !run.all_successful ==> !run.advanced(event, now).all_successful && !run.advanced(
            event,
            now,
        ).result.success,
        !run.result.hash_verified ==> !run.advanced(event, now).result.hash_verified,
        run.result.file_list.len() <= run.advanced(event, now).result.file_list.len(),
{
    reveal(RunView::after_entry);
    reveal(RunView::after_directory_creation);
    reveal(RunView::after_entry_copy);
    reveal(RunView::after_entry_verification);
    reveal(RunView::after_entry_cleanup);
    reveal(RunView::after_walk);
}

/// A directory of the destination tree that cannot be made is a warning
/// and no failure: it is blamed, the marks of the operation stay as they
/// are, no file is listed for it, and the walk goes on.
pub proof fn lemma_directory_failure_is_a_warning(run: RunView, failure: IoFailureView, now: u64)
    requires
        run.phase == Phase::DirectoryCreation,
    ensures
        ({
            let next = run.advanced(EventView::Completed(Err(failure)), now);
            &&& next.phase == Phase::Walk
            &&& next.all_successful == run.all_successful
            &&& next.result.hash_verified == run.result.hash_verified
            &&& next.result.file_list == run.result.file_list
            &&& next.result.files_processed == run.result.files_processed
            &&& next.failures == run.failures.push(
                messages::directory_failed_text(run.entry_target, failure.message),
            )
        }),
{
    reveal(RunView::after_directory_creation);
}

/// True of the report that an entry of the tree could not be read.
pub open spec fn unreadable_entry(event: EventView) -> bool {
    event matches EventView::Entry(Err(_))
}

impl RunView {
    /// While a tree is copied: nothing has failed so far exactly when
    /// every file listed so far came through.
    pub open spec fn success_is_exact(self) -> bool {
        copies_tree(self.phase) ==> (self.all_successful <==> all_good(self.result.file_list))
    }
}

proof fn lemma_entry_copy_keeps_exact(run: RunView, outcome: Result<u64, IoFailureView>)
    requires
        run.success_is_exact(),
        run.phase == Phase::EntryCopy,
    ensures
        run.after_entry_copy(outcome).success_is_exact(),
{
    reveal(RunView::after_entry_copy);
    let next = run.after_entry_copy(outcome);
    if outcome is Err {
        assert(!next.result.file_list[run.result.file_list.len() as int].success);
    }
}

proof fn lemma_entry_verification_keeps_exact(run: RunView, outcome: Result<bool, IoFailureView>)
    requires
        run.success_is_exact(),
        run.phase == Phase::EntryVerification,
    ensures
        run.after_entry_verification(outcome).success_is_exact(),
{
    reveal(RunView::after_entry_verification);
    let next = run.after_entry_verification(outcome);
    let added = run.result.file_list.len() as int;
    if outcome == Ok::<bool, IoFailureView>(true) {
        assert(next.result.file_list[added].success);
        if all_good(run.result.file_list) {
            assert forall|i: int| 0 <= i < next.result.file_list.len() implies (
            #[trigger] next.result.file_list[i]).success by {
                if i < added {
                    assert(next.result.file_list[i] == run.result.file_list[i]);
                }
            }
        } else {
            let bad = choose|i: int|
                0 <= i < run.result.file_list.len() && !(#[trigger] run.result.file_list[i]).success;
            assert(next.result.file_list[bad] == run.result.file_list[bad]);
        }
    } else {
        assert(!next.result.file_list[added].success);
    }
}

/// A step of a directory copy keeps the tie between the success of the
/// operation and the outcomes of its files, unless it is the report of an
/// entry that could not be read: such an entry fails the operation though
/// it lists no file.
pub proof fn lemma_step_keeps_success_exact(run: RunView, event: EventView, now: u64)
    requires
        run.consistent(),
        run.success_is_exact(),
        accepts(run.phase, event),
        !unreadable_entry(event),
    ensures
        run.advanced(event, now).success_is_exact(),
{
    if prepares(run.phase) {
        reveal(RunView::after_source);
        reveal(RunView::after_parent);
        reveal(RunView::after_parent_creation);
        reveal(RunView::dispatch);
        reveal(RunView::copy_file);
        reveal(RunView::copy_directory);
        reveal(RunView::move_file);
        reveal(RunView::move_directory);
    } else if copies_file(run.phase) {
        reveal(RunView::after_file_copy);
        reveal(RunView::after_file_verification);
        reveal(RunView::after_file_cleanup);
    } else if copies_tree(run.phase) {
        match (run.phase, event) {
            (Phase::EntryCopy, EventView::Copied(outcome)) => lemma_entry_copy_keeps_exact(
                run,
                outcome,
            ),
            (Phase::EntryVerification, EventView::Verified(outcome)) =>
                lemma_entry_verification_keeps_exact(run, outcome),
            _ => {
                reveal(RunView::after_root_creation);
                reveal(RunView::after_entry);
                reveal(RunView::after_directory_creation);
                reveal(RunView::after_entry_cleanup);
                reveal(RunView::after_walk);
            },
        }
    } else {
        reveal(RunView::after_target_probe);
        reveal(RunView::after_identity);
        reveal(RunView::after_removal);
        reveal(RunView::after_rename);
        reveal(RunView::after_confirmation);
        reveal(RunView::after_moved_entry);
        reveal(RunView::after_inventory);
    }
}

/// True when none of the events reports an entry that could not be read.
pub open spec fn all_entries_readable(events: Seq<(EventView, u64)>) -> bool {
    forall|i: int| 0 <= i < events.len() ==> !unreadable_entry((#[trigger] events[i]).0)
}

/// Whatever else the driver reports, as long as every entry of the tree
/// can be read, a run that is copying a tree is unspoilt exactly when every
/// file that it lists came through.
pub proof fn lemma_every_state_success_exact(
    operation: FileOperationView,
    global: RateLimit,
    start: u64,
    events: Seq<(EventView, u64)>,
)
    requires
        all_entries_readable(events),
    ensures
        replayed(opened(operation, global, start), events).success_is_exact(),
    decreases events.len(),
{
    if events.len() > 0 {
        let earlier = events.drop_last();
        assert forall|i: int| 0 <= i < earlier.len() implies !unreadable_entry(
            (#[trigger] earlier[i]).0,
        ) by {
            assert(earlier[i] == events[i]);
        }
        lemma_every_state_success_exact(operation, global, start, earlier);
        lemma_every_state_consistent(operation, global, start, earlier);
        let before = replayed(opened(operation, global, start), earlier);
        assert(!unreadable_entry(events[events.len() - 1].0));
        if accepts(before.phase, events.last().0) {
            lemma_step_keeps_success_exact(before, events.last().0, events.last().1);
        }
    }
}

/// The success of a directory copy is the conjunction of the outcomes of
/// its files: when the walk through a tree whose entries could all be read
/// has ended, the operation has succeeded exactly when every file that it
/// lists came through. A tree without files succeeds, whatever befell its
/// directories.
pub proof fn lemma_tree_success_is_conjunction(
    operation: FileOperationView,
    global: RateLimit,
    start: u64,
    events: Seq<(EventView, u64)>,
    now: u64,
)
    requires
        all_entries_readable(events),
        replayed(opened(operation, global, start), events).phase == Phase::Walk,
    ensures
        ({
            let end = replayed(opened(operation, global, start), events).advanced(
                EventView::WalkEnd,
                now,
            );
            &&& end.phase == Phase::Finished
            &&& end.result.success <==> all_good(end.result.file_list)
            &&& end.result.file_list.len() == 0 ==> end.result.success
        }),
{
    lemma_every_state_success_exact(operation, global, start, events);
    reveal(RunView::after_walk);
}

/// A move never copies, verifies by digest or discards: what it changes on
/// disk it changes by removing what is in the way and by renaming.
pub proof fn lemma_move_requests(run: RunView)
    requires
        run.consistent(),
        run.operation.operation_type == OperationType::Move,
        !prepares(run.phase),
    ensures
        !(run.pending() is Verify),
        !(run.pending() is CopyFile),
        !(run.pending() is Discard),
        !(run.pending() is CreateDirectories),
        moves(run.phase) ==> run.result.hash_verified,
{
}

/// In a move, what lies at the destination is removed before the rename is
/// tried, and a removal that fails ends the run without a rename.
pub proof fn lemma_move_clears_destination(
    run: RunView,
    removal: Result<(), IoFailureView>,
    now: u64,
)
    requires
        run.consistent(),
        run.phase == Phase::TargetProbe,
        !run.directory,
    ensures
        ({
            let taken = run.advanced(EventView::Answer(true), now);
            let cleared = taken.advanced(EventView::Completed(removal), now);
            &&& taken.pending() == (ActionView::RemoveFile { path: run.operation.destination })
            &&& removal is Ok ==> cleared.pending() == (ActionView::Rename {
                from: run.operation.origin,
                to: run.operation.destination,
            })
            &&& removal is Err ==> cleared.phase == Phase::Finished && !cleared.result.success
        }),
        run.advanced(EventView::Answer(false), now).pending() == (ActionView::Rename {
            from: run.operation.origin,
            to: run.operation.destination,
        }),
{
    reveal(RunView::after_target_probe);
    reveal(RunView::after_removal);
}

/// A move of a single file that went through and whose destination is
/// there ends as a success that counts as verified, with the file listed.
pub proof fn lemma_move_succeeds(run: RunView, now: u64)
    requires
        run.consistent(),
        run.phase == Phase::Confirmation,
        !run.directory,
    ensures
        ({
            let end = run.advanced(EventView::Answer(true), now);
            &&& end.phase == Phase::Finished
            &&& end.result.success
            &&& end.result.hash_verified
            &&& end.result.file_list.len() == 1
            &&& end.result.file_list[0].success
            &&& end.result.file_list[0].hash_verified
        }),
{
    reveal(RunView::after_confirmation);
}

/// A directory that is to be moved onto itself is not touched: up to the
/// comparison the run asks only questions, and the comparison ends it as a
/// failure.
pub proof fn lemma_move_onto_itself(run: RunView, now: u64)
    requires
        run.consistent(),
        run.phase == Phase::TargetProbe,
        run.directory,
    ensures
        !run.pending().mutates(),
        ({
            let asked = run.advanced(EventView::Answer(true), now);
            let end = asked.advanced(EventView::Answer(true), now);
            &&& asked.pending() == (ActionView::CompareCanonical {
                first: run.operation.origin,
                second: run.operation.destination,
            })
            &&& !asked.pending().mutates()
            &&& end.phase == Phase::Finished
            &&& !end.result.success
            &&& end.result.file_list.len() == 0
            &&& end.result.error_message == Some(
                "Source and destination are the same directory"@,
            )
        }),
{
    reveal(RunView::after_target_probe);
    reveal(RunView::after_identity);
}

} // verus!
