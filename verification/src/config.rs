//! The declared operations and their rate limits.
//!
//! Paths are held as text: the engine never touches the file system itself,
//! it only names the paths that its driver has to act on.

use vstd::prelude::*;

verus! {

/// Bytes in one megabyte, as a rate limit counts them.
pub const BYTES_PER_MEGABYTE: u64 = 1048576;

/// Seconds in one minute.
pub const SECONDS_PER_MINUTE: u64 = 60;

/// Whether an operation copies its source or moves it.
#[derive(Debug, Clone, Copy, PartialEq, Eq, Structural)]
pub enum OperationType {
    Copy,
    Move,
}

/// A throughput cap. While `enabled` is false the numbers mean nothing.
/// Where both numbers are present, `bytes_per_second` wins.
#[derive(Debug, Clone, Copy, PartialEq, Eq, Structural)]
pub struct RateLimit {
    pub enabled: bool,
    pub bytes_per_second: Option<u64>,
    pub megabytes_per_minute: Option<u64>,
}

/// Bytes per second that `mb` megabytes per minute come to, rounded down.
/// A rate too large for 64 bits is held at the largest one.
pub open spec fn megabytes_per_minute_rate(mb: u64) -> u64 {
    let exact = mb as int * BYTES_PER_MEGABYTE as int / SECONDS_PER_MINUTE as int;
    if exact <= u64::MAX as int {
        exact as u64
    } else {
        u64::MAX
    }
}

/// The rate that a pair of optional numbers stands for: bytes per second
/// first, megabytes per minute second, nothing where both are missing.
pub open spec fn numbers_rate(bytes_per_second: Option<u64>, megabytes_per_minute: Option<u64>)
    -> Option<u64> {
    match bytes_per_second {
        Some(bps) => Some(bps),
        None => match megabytes_per_minute {
            Some(mb) => Some(megabytes_per_minute_rate(mb)),
            None => None,
        },
    }
}

/// Converts megabytes per minute into bytes per second.
pub fn megabytes_per_minute_to_bps(mb: u64) -> (bps: u64)
    ensures
        bps == megabytes_per_minute_rate(mb),
{
    let wide: u128 = mb as u128 * BYTES_PER_MEGABYTE as u128 / SECONDS_PER_MINUTE as u128;
    if wide <= u64::MAX as u128 {
        wide as u64
    } else {
        u64::MAX
    }
}

impl RateLimit {
    /// The cap in bytes per second that this limit asks for; `None` when it
    /// is disabled or carries no number.
    pub open spec fn resolved(self) -> Option<u64> {
        if self.enabled {
            numbers_rate(self.bytes_per_second, self.megabytes_per_minute)
        } else {
            None
        }
    }

    /// True when an enabled limit also says how fast.
    pub open spec fn is_definite(self) -> bool {
        self.enabled ==> (self.bytes_per_second is Some || self.megabytes_per_minute is Some)
    }

    /// Computes [`RateLimit::resolved`].
    pub fn resolve(&self) -> (rate: Option<u64>)
        ensures
            rate == self.resolved(),
    {
        if !self.enabled {
            return None;
        }
        match self.bytes_per_second {
            Some(bps) => Some(bps),
            None => match self.megabytes_per_minute {
                Some(mb) => Some(megabytes_per_minute_to_bps(mb)),
                None => None,
            },
        }
    }
}

impl Default for RateLimit {
    /// No throttling.
    fn default() -> (limit: Self)
        ensures
            limit == (RateLimit { enabled: false, bytes_per_second: None, megabytes_per_minute: None }),
    {
        RateLimit { enabled: false, bytes_per_second: None, megabytes_per_minute: None }
    }
}

/// One declared transfer. `name` is the key under which it is reported and
/// need not be unique.
#[derive(Debug, Clone)]
pub struct FileOperation {
    pub name: String,
    pub origin: String,
    pub destination: String,
    pub operation_type: OperationType,
    pub rate_limit: RateLimit,
}

/// What a [`FileOperation`] says, with its texts as sequences of characters.
pub struct FileOperationView {
    pub name: Seq<char>,
    pub origin: Seq<char>,
    pub destination: Seq<char>,
    pub operation_type: OperationType,
    pub rate_limit: RateLimit,
}

impl View for FileOperation {
    type V = FileOperationView;

    open spec fn view(&self) -> FileOperationView {
        FileOperationView {
            name: self.name@,
            origin: self.origin@,
            destination: self.destination@,
            operation_type: self.operation_type,
            rate_limit: self.rate_limit,
        }
    }
}

impl FileOperation {
    /// A copy of this operation that says the same.
    pub fn duplicate(&self) -> (copy: FileOperation)
        ensures
            copy@ == self@,
    {
        FileOperation {
            name: self.name.clone(),
            origin: self.origin.clone(),
            destination: self.destination.clone(),
            operation_type: self.operation_type,
            rate_limit: self.rate_limit,
        }
    }
}

/// The operations of one run, in the order in which they were declared, and
/// the cap that holds for all of them together.
#[derive(Debug, Clone)]
pub struct Config {
    pub operations: Vec<FileOperation>,
    pub global_rate_limit: RateLimit,
}

} // verus!
