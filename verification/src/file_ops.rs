//! The records that an operation leaves behind, and the rule that settles
//! how fast an operation may go.

use crate::config::{FileOperation, OperationType, RateLimit};
use crate::run::OperationRun;
use crate::text::lines;
use vstd::prelude::*;

verus! {

/// Nanoseconds in one millisecond.
pub const NANOS_PER_MILLI: u64 = 1000000;

/// The kinds of failure of the file system that the engine tells apart.
#[derive(Debug, Clone, Copy, PartialEq, Eq, Structural)]
pub enum IoErrorKind {
    PermissionDenied,
    NotFound,
    AlreadyExists,
    CrossesDevices,
    InvalidInput,
    Other,
}

/// A failed request to the file system: its kind, and the system's own
/// words for it.
#[derive(Debug, Clone, PartialEq, Eq)]
pub struct IoFailure {
    pub kind: IoErrorKind,
    pub message: String,
}

/// What an [`IoFailure`] says.
pub struct IoFailureView {
    pub kind: IoErrorKind,
    pub message: Seq<char>,
}

impl View for IoFailure {
    type V = IoFailureView;

    open spec fn view(&self) -> IoFailureView {
        IoFailureView { kind: self.kind, message: self.message@ }
    }
}

/// The outcome for one file.
#[derive(Debug, Clone, PartialEq, Eq)]
pub struct FileEntry {
    pub source_path: String,
    pub destination_path: String,
    pub size: u64,
    pub hash_verified: bool,
    pub success: bool,
    pub error_message: Option<String>,
}

/// What a [`FileEntry`] says.
pub struct FileEntryView {
    pub source_path: Seq<char>,
    pub destination_path: Seq<char>,
    pub size: u64,
    pub hash_verified: bool,
    pub success: bool,
    pub error_message: Option<Seq<char>>,
}

/// The text of an optional string.
pub open spec fn optional_text(s: Option<String>) -> Option<Seq<char>> {
    match s {
        Some(t) => Some(t@),
        None => None,
    }
}

impl View for FileEntry {
    type V = FileEntryView;

    open spec fn view(&self) -> FileEntryView {
        FileEntryView {
            source_path: self.source_path@,
            destination_path: self.destination_path@,
            size: self.size,
            hash_verified: self.hash_verified,
            success: self.success,
            error_message: optional_text(self.error_message),
        }
    }
}

/// What a list of entries says.
pub open spec fn entries(v: Seq<FileEntry>) -> Seq<FileEntryView> {
    Seq::new(v.len(), |i: int| v[i]@)
}

/// Appends an entry to a list of entries.
pub fn push_entry(list: &mut Vec<FileEntry>, entry: FileEntry)
    ensures
        entries(final(list)@) == entries(old(list)@).push(entry@),
{
    list.push(entry);
    assert(entries(list@) =~= entries(old(list)@).push(entry@));
}

/// The outcome of one operation. Times are nanoseconds since the Unix
/// epoch.
#[derive(Debug, Clone)]
pub struct OperationResult {
    pub operation_name: String,
    pub source: String,
    pub destination: String,
    pub success: bool,
    pub error_message: Option<String>,
    pub hash_verified: bool,
    pub operation_type: OperationType,
    pub files_processed: usize,
    pub total_size: u64,
    pub start_time: u64,
    pub end_time: u64,
    pub details: Vec<String>,
    pub file_list: Vec<FileEntry>,
}

/// What an [`OperationResult`] says.
pub struct OperationResultView {
    pub operation_name: Seq<char>,
    pub source: Seq<char>,
    pub destination: Seq<char>,
    pub success: bool,
    pub error_message: Option<Seq<char>>,
    pub hash_verified: bool,
    pub operation_type: OperationType,
    pub files_processed: usize,
    pub total_size: u64,
    pub start_time: u64,
    pub end_time: u64,
    pub details: Seq<Seq<char>>,
    pub file_list: Seq<FileEntryView>,
}

impl View for OperationResult {
    type V = OperationResultView;

    open spec fn view(&self) -> OperationResultView {
        OperationResultView {
            operation_name: self.operation_name@,
            source: self.source@,
            destination: self.destination@,
            success: self.success,
            error_message: optional_text(self.error_message),
            hash_verified: self.hash_verified,
            operation_type: self.operation_type,
            files_processed: self.files_processed,
            total_size: self.total_size,
            start_time: self.start_time,
            end_time: self.end_time,
            details: lines(self.details@),
            file_list: entries(self.file_list@),
        }
    }
}

impl OperationResultView {
    /// Whole milliseconds from start to end; zero where the end lies before
    /// the start.
    pub open spec fn duration_millis(self) -> u64 {
        if self.end_time >= self.start_time {
            ((self.end_time - self.start_time) / NANOS_PER_MILLI as int) as u64
        } else {
            0
        }
    }
}

impl OperationResult {
    /// Whole milliseconds that the operation took.
    pub fn duration_millis(&self) -> (millis: u64)
        ensures
            millis == self@.duration_millis(),
    {
        if self.end_time >= self.start_time {
            (self.end_time - self.start_time) / NANOS_PER_MILLI
        } else {
            0
        }
    }
}

/// The smaller of two rates.
pub open spec fn lower_rate(a: u64, b: u64) -> u64 {
    if a <= b {
        a
    } else {
        b
    }
}

/// The cap in bytes per second under which an operation runs: the lower of
/// its own limit and the global one, a disabled or empty limit counting as
/// no limit at all.
pub open spec fn effective_rate(op: RateLimit, global: RateLimit) -> Option<u64> {
    match (op.resolved(), global.resolved()) {
        (Some(o), Some(g)) => Some(lower_rate(o, g)),
        (Some(o), None) => Some(o),
        (None, Some(g)) => Some(g),
        (None, None) => None,
    }
}

/// The entry point of the engine.
pub struct FileManager;

impl FileManager {
    /// Computes [`effective_rate`].
    pub fn compute_effective_bps(op: &RateLimit, global: &RateLimit) -> (rate: Option<u64>)
        ensures
            rate == effective_rate(*op, *global),
    {
        if !op.enabled && !global.enabled {
            return None;
        }
        let op_bps: Option<u64> = op.resolve();
        let global_bps: Option<u64> = global.resolve();
        match (op_bps, global_bps) {
            (Some(o), Some(g)) => Some(if o <= g { o } else { g }),
            (Some(o), None) => Some(o),
            (None, Some(g)) => Some(g),
            (None, None) => None,
        }
    }

    /// Opens the run of one operation at time `start_time`. The driver then
    /// does what [`OperationRun::pending`] asks for and answers through
    /// [`OperationRun::advance`] until the run has finished.
    pub fn execute_single_operation(
        operation: &FileOperation,
        global_rate_limit: &RateLimit,
        start_time: u64,
    ) -> (run: OperationRun)
        ensures
            run@ == crate::state::opened(operation@, *global_rate_limit, start_time),
            run@.consistent(),
    {
        OperationRun::open(operation, global_rate_limit, start_time)
    }

    /// Opens one run for each operation, in the order of the operations.
    /// The runs share nothing, so a driver may carry them out side by side.
    pub fn execute_operations(
        operations: &Vec<FileOperation>,
        global_rate_limit: &RateLimit,
        start_time: u64,
    ) -> (runs: Vec<OperationRun>)
        ensures
            runs@.len() == operations@.len(),
            forall|i: int|
                0 <= i < operations@.len() ==> (#[trigger] runs@[i])@ == crate::state::opened(
                    operations@[i]@,
                    *global_rate_limit,
                    start_time,
                ),
    {
        let mut runs: Vec<OperationRun> = Vec::new();
        let mut i: usize = 0;
        while i < operations.len()
            invariant
                i <= operations.len(),
                runs@.len() == i,
                forall|k: int|
                    0 <= k < i ==> (#[trigger] runs@[k])@ == crate::state::opened(
                        operations@[k]@,
                        *global_rate_limit,
                        start_time,
                    ),
            decreases operations.len() - i,
        {
            let run = Self::execute_single_operation(&operations[i], global_rate_limit, start_time);
            runs.push(run);
            i = i + 1;
        }
        runs
    }
}

/// What a list of results says.
pub open spec fn results_view(results: Seq<OperationResult>) -> Seq<OperationResultView> {
    Seq::new(results.len(), |i: int| results[i]@)
}

impl FileManager {
    /// Puts the result of `run` at the end of the results of a batch and
    /// returns the notice of progress for the operation. The results that
    /// were there before stay as they are and where they are.
    pub fn collect(results: &mut Vec<OperationResult>, run: OperationRun) -> (notice: String)
        ensures
            results_view(final(results)@) == results_view(old(results)@).push(run@.result),
            notice@ == crate::messages::completed_text(run@.result.operation_name),
    {
        let result: OperationResult = run.into_result();
        let notice = crate::messages::completed(result.operation_name.as_str());
        results.push(result);
        assert(results_view(results@) =~= results_view(old(results)@).push(run@.result));
        notice
    }
}

/// True when `order` names each of `count` runs once: an order in which
/// the runs of a batch may finish.
pub open spec fn completion_order(order: Seq<int>, count: int) -> bool {
    &&& order.len() == count
    &&& order.no_duplicates()
    &&& forall|i: int| 0 <= i < order.len() ==> 0 <= #[trigger] order[i] < count
}

/// The results of a batch as they are collected when the runs finish in
/// the order `order`: first the result of the run that `order` names
/// first, and so on.
pub open spec fn gathered<T>(results: Seq<T>, order: Seq<int>) -> Seq<T> {
    Seq::new(order.len(), |i: int| results[order[i]])
}

/// In whatever order the runs of a batch finish, the results collected
/// are as many as the runs, and they are the results of the runs, none
/// lost and none twice.
pub proof fn lemma_no_result_lost_or_duplicated<T>(results: Seq<T>, order: Seq<int>)
    requires
        completion_order(order, results.len() as int),
    ensures
        gathered(results, order).len() == results.len(),
        gathered(results, order).to_multiset() == results.to_multiset(),
    decreases order.len(),
{
    if order.len() == 0 {
        assert(gathered(results, order) =~= results);
    } else {
        let last = order.last();
        let rest = order.drop_last();
        let fewer = results.remove(last);
        let shifted = Seq::new(
            rest.len(),
            |i: int|
                if rest[i] > last {
                    rest[i] - 1
                } else {
                    rest[i]
                },
        );
        assert forall|i: int| 0 <= i < rest.len() implies rest[i] != last && 0 <= rest[i]
            < results.len() by {
            assert(order[i] == rest[i]);
            assert(order[order.len() - 1] == last);
        }
        assert(shifted.no_duplicates()) by {
            assert forall|i: int, k: int|
                0 <= i < shifted.len() && 0 <= k < shifted.len() && i != k implies shifted[i]
                != shifted[k] by {
                assert(order[i] == rest[i] && order[k] == rest[k]);
            }
        }
        assert(completion_order(shifted, fewer.len() as int));
        lemma_no_result_lost_or_duplicated(fewer, shifted);
        assert(gathered(fewer, shifted) =~= gathered(results, rest));
        assert(gathered(results, order) =~= gathered(results, rest).push(results[last]));
        assert(results =~= fewer.insert(last, results[last]));
        vstd::seq_lib::to_multiset_build(gathered(results, rest), results[last]);
        vstd::seq_lib::to_multiset_insert(fewer, last, results[last]);
    }
}

/// The effective rate is absent exactly when neither limit is enabled, and
/// is otherwise the lower of the limits that are enabled. This holds of
/// limits that, where enabled, carry a number.
pub proof fn lemma_effective_rate(op: RateLimit, global: RateLimit)
    requires
        op.is_definite(),
        global.is_definite(),
    ensures
        effective_rate(op, global) is None <==> (!op.enabled && !global.enabled),
        op.enabled && global.enabled ==> effective_rate(op, global) == Some(
            lower_rate(op.resolved()->0, global.resolved()->0),
        ),
        op.enabled && !global.enabled ==> effective_rate(op, global) == op.resolved(),
        !op.enabled && global.enabled ==> effective_rate(op, global) == global.resolved(),
{
}

/// The global limit never raises an operation's own cap, and no operation
/// exceeds the global cap.
pub proof fn lemma_effective_rate_bounded(op: RateLimit, global: RateLimit)
    ensures
        op.resolved() matches Some(o) ==> effective_rate(op, global) matches Some(r) && r <= o,
        global.resolved() matches Some(g) ==> effective_rate(op, global) matches Some(r) && r <= g,
{
}

} // verus!
