//! The bookkeeping of a throttled copy: how much has been copied, and when
//! a notice of progress is due.
//!
//! A throttled copy moves a file in chunks of [`COPY_CHUNK`] bytes. After
//! each chunk the driver lets the throttle count it, pauses as long as the
//! throttle says, and asks here whether the progress is to be announced.

use crate::rate_limiter::capped_sum;
use vstd::prelude::*;

verus! {

/// The number of bytes that a throttled copy moves at a time.
pub const COPY_CHUNK: usize = 65536;

/// Files shorter than this get a notice after every chunk.
pub const SMALL_FILE: u64 = 10485760;

/// The highest percentage that is announced while the copy is under way.
pub const HIGHEST_NOTICE: u64 = 99;

/// How far a copy has come.
pub struct CopyProgress {
    /// The length of the source when the copy began.
    pub total_size: u64,
    /// The bytes copied so far.
    pub total_copied: u64,
}

/// The whole percents that `copied` bytes are of `total_size` bytes.
pub open spec fn percent(copied: u64, total_size: u64) -> int
    recommends
        total_size > 0,
{
    copied as int * 100 / total_size as int
}

impl CopyProgress {
    /// True when the copy is announced at all: at its start with zero and
    /// at its end with a hundred percent. An empty file is copied in
    /// silence.
    pub open spec fn announced(self) -> bool {
        self.total_size > 0
    }

    /// The progress after a chunk of `bytes` bytes was written.
    pub open spec fn after_chunk(self, bytes: usize) -> CopyProgress {
        CopyProgress { total_copied: capped_sum(self.total_copied, bytes as u64), ..self }
    }

    /// The percentage after a chunk of `bytes` bytes, as it is announced:
    /// never more than [`HIGHEST_NOTICE`].
    pub open spec fn shown(self, bytes: usize) -> int {
        let reached = percent(self.after_chunk(bytes).total_copied, self.total_size);
        if reached > HIGHEST_NOTICE as int {
            HIGHEST_NOTICE as int
        } else {
            reached
        }
    }

    /// The percentage to announce after a chunk of `bytes` bytes was
    /// written, if any: the copy of a small file is announced after every
    /// chunk, that of another file whenever the chunk has brought it to a
    /// higher percentage.
    pub open spec fn notice(self, bytes: usize) -> Option<u64> {
        if !self.announced() {
            None
        } else if self.shown(bytes) > percent(self.total_copied, self.total_size)
            || self.total_size < SMALL_FILE {
            Some(self.shown(bytes) as u64)
        } else {
            None
        }
    }
}

/// The progress of one throttled copy.
#[derive(Debug, Clone, Copy)]
pub struct ThrottledCopy {
    total_size: u64,
    total_copied: u64,
}

impl View for ThrottledCopy {
    type V = CopyProgress;

    closed spec fn view(&self) -> CopyProgress {
        CopyProgress { total_size: self.total_size, total_copied: self.total_copied }
    }
}

impl ThrottledCopy {
    /// The copy of a file of `total_size` bytes, before its first chunk.
    pub fn new(total_size: u64) -> (copy: ThrottledCopy)
        ensures
            copy@ == (CopyProgress { total_size, total_copied: 0 }),
    {
        ThrottledCopy { total_size, total_copied: 0 }
    }

    /// Whether the start and the end of the copy are announced.
    pub fn is_announced(&self) -> (announced: bool)
        ensures
            announced == self@.announced(),
    {
        self.total_size > 0
    }

    /// The length of the source when the copy began.
    pub fn total_size(&self) -> (size: u64)
        ensures
            size == self@.total_size,
    {
        self.total_size
    }

    /// The bytes copied so far.
    pub fn total_copied(&self) -> (copied: u64)
        ensures
            copied == self@.total_copied,
    {
        self.total_copied
    }

    /// Counts a chunk of `bytes_read` bytes that has been written, and
    /// returns the percentage to announce, if one is due.
    pub fn chunk_written(&mut self, bytes_read: usize) -> (notice: Option<u64>)
        ensures
            final(self)@ == old(self)@.after_chunk(bytes_read),
            notice == old(self)@.notice(bytes_read),
    {
        let before_copied: u64 = self.total_copied;
        self.total_copied = self.total_copied.saturating_add(bytes_read as u64);
        if self.total_size == 0 {
            return None;
        }
        let total: u128 = self.total_size as u128;
        let before: u128 = before_copied as u128 * 100 / total;
        let reached: u128 = self.total_copied as u128 * 100 / total;
        let shown: u64 = if reached > HIGHEST_NOTICE as u128 {
            HIGHEST_NOTICE
        } else {
            reached as u64
        };
        if shown as u128 > before || self.total_size < SMALL_FILE {
            Some(shown)
        } else {
            None
        }
    }
}

/// The percentage announced never goes down from one notice to the next,
/// and the count of bytes never goes down either.
pub proof fn lemma_progress_never_falls(progress: CopyProgress, first: usize, second: usize)
    requires
        progress.announced(),
    ensures
        progress.after_chunk(first).total_copied >= progress.total_copied,
        progress.after_chunk(first).shown(second) >= progress.shown(first),
{
    let total = progress.total_size as int;
    let a = progress.after_chunk(first).total_copied as int;
    let b = progress.after_chunk(first).after_chunk(second).total_copied as int;
    assert(a <= b);
    assert(a * 100 / total <= b * 100 / total) by (nonlinear_arith)
        requires
            a <= b,
            total > 0,
    ;
}

} // verus!
