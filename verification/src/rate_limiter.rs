//! The throttle: it counts the bytes moved in the current window and says
//! how long the transfer has to pause to stay under its target rate.
//!
//! The throttle never reads a clock and never sleeps. Its caller hands it
//! the time, in nanoseconds on a clock that does not run backwards, and
//! pauses for as long as the throttle says. A pause is taken to last exactly
//! its length: the window that follows starts where the pause ends.

use crate::config::numbers_rate;
use crate::config::megabytes_per_minute_to_bps;
use vstd::prelude::*;

verus! {

/// Nanoseconds in one second, which is also the length of a window.
pub const NANOS_PER_SECOND: u64 = 1000000000;

/// The state of a throttle.
pub struct ThrottleState {
    pub enabled: bool,
    pub target_bps: u64,
    pub window_start: u64,
    pub bytes_in_window: u64,
    pub total_bytes: u64,
}

/// The sum of two counts, held at the largest value of 64 bits.
pub open spec fn capped_sum(a: u64, b: u64) -> u64 {
    if a + b <= u64::MAX {
        (a + b) as u64
    } else {
        u64::MAX
    }
}

/// True when `total` of `total_size` bytes lies within the hundredth of the
/// whole that follows a tenth of it: the progress, taken modulo one tenth,
/// is under one hundredth.
pub open spec fn in_decile_band(total: u64, total_size: u64) -> bool {
    10 * ((10 * total as int) % (total_size as int)) < total_size as int
}

impl ThrottleState {
    /// The state of a throttle made at time `now` from the two optional
    /// numbers of a limit.
    pub open spec fn started(
        bytes_per_second: Option<u64>,
        megabytes_per_minute: Option<u64>,
        now: u64,
    ) -> ThrottleState {
        let rate = numbers_rate(bytes_per_second, megabytes_per_minute);
        ThrottleState {
            enabled: rate is Some,
            target_bps: match rate {
                Some(bps) => bps,
                None => 0,
            },
            window_start: now,
            bytes_in_window: 0,
            total_bytes: 0,
        }
    }

    /// True when this throttle can ever ask for a pause.
    pub open spec fn limits(self) -> bool {
        self.enabled && self.target_bps != 0
    }

    /// Nanoseconds from the start of the window to `now`; zero for a time
    /// before the window.
    pub open spec fn elapsed(self, now: u64) -> u64 {
        if now >= self.window_start {
            (now - self.window_start) as u64
        } else {
            0
        }
    }

    /// The state after `bytes` more bytes were moved by time `now`. A window
    /// that has been open for a second or more starts again, empty.
    pub open spec fn recorded(self, bytes: u64, now: u64) -> ThrottleState {
        if self.elapsed(now) >= NANOS_PER_SECOND {
            ThrottleState {
                window_start: now,
                bytes_in_window: 0,
                total_bytes: capped_sum(self.total_bytes, bytes),
                ..self
            }
        } else {
            ThrottleState {
                bytes_in_window: capped_sum(self.bytes_in_window, bytes),
                total_bytes: capped_sum(self.total_bytes, bytes),
                ..self
            }
        }
    }

    /// Nanoseconds that the bytes of the window take at the target rate,
    /// rounded up.
    pub open spec fn ideal_nanos(self) -> int
        recommends
            self.target_bps > 0,
    {
        (self.bytes_in_window as int * NANOS_PER_SECOND as int + self.target_bps as int - 1)
            / self.target_bps as int
    }

    /// Nanoseconds to pause at time `now`: what the window lacks of its
    /// ideal length, and nothing while the throttle is off.
    pub open spec fn pause(self, now: u64) -> u64 {
        if !self.limits() {
            0
        } else if self.elapsed(now) < self.ideal_nanos() {
            let lacking = self.ideal_nanos() - self.elapsed(now);
            if lacking <= u64::MAX {
                lacking as u64
            } else {
                u64::MAX
            }
        } else {
            0
        }
    }

    /// The state after the throttle was applied at time `now`: where it
    /// asked for a pause, a new and empty window starts when the pause ends.
    pub open spec fn throttled(self, now: u64) -> ThrottleState {
        if self.pause(now) > 0 {
            ThrottleState {
                window_start: capped_sum(now, self.pause(now)),
                bytes_in_window: 0,
                ..self
            }
        } else {
            self
        }
    }

    /// True when a transfer of `total_size` bytes is long enough, and far
    /// enough along, for the throttle to be applied once more after a chunk.
    pub open spec fn reapplies(self, total_size: u64) -> bool {
        total_size as int > self.target_bps as int * 10 && in_decile_band(
            self.total_bytes,
            total_size,
        )
    }

    /// The state after a chunk of `chunk_size` bytes was moved by time
    /// `now`.
    pub open spec fn chunk_throttled(self, chunk_size: usize, now: u64) -> ThrottleState {
        if self.enabled {
            self.recorded(chunk_size as u64, now).throttled(now)
        } else {
            self
        }
    }

    /// Nanoseconds to pause after a chunk of `chunk_size` bytes was moved by
    /// time `now`.
    pub open spec fn chunk_pause(self, chunk_size: usize, now: u64) -> u64 {
        if self.enabled {
            self.recorded(chunk_size as u64, now).pause(now)
        } else {
            0
        }
    }
}

/// A throttle for one transfer.
#[derive(Debug, Clone, Copy)]
pub struct RateLimiter {
    enabled: bool,
    bytes_per_second: u64,
    window_start: u64,
    bytes_transferred: u64,
    total_bytes_transferred: u64,
}

impl View for RateLimiter {
    type V = ThrottleState;

    closed spec fn view(&self) -> ThrottleState {
        ThrottleState {
            enabled: self.enabled,
            target_bps: self.bytes_per_second,
            window_start: self.window_start,
            bytes_in_window: self.bytes_transferred,
            total_bytes: self.total_bytes_transferred,
        }
    }
}

impl RateLimiter {
    /// A throttle whose first window starts at `now`. It is enabled when
    /// either number is given; bytes per second wins over megabytes per
    /// minute.
    pub fn new(bytes_per_second: Option<u64>, megabytes_per_minute: Option<u64>, now: u64) -> (limiter:
        Self)
        ensures
            limiter@ == ThrottleState::started(bytes_per_second, megabytes_per_minute, now),
    {
        let (enabled, bytes_per_second): (bool, u64) = match bytes_per_second {
            Some(bps) => (true, bps),
            None => match megabytes_per_minute {
                Some(mb) => (true, megabytes_per_minute_to_bps(mb)),
                None => (false, 0),
            },
        };
        RateLimiter {
            enabled,
            bytes_per_second,
            window_start: now,
            bytes_transferred: 0,
            total_bytes_transferred: 0,
        }
    }

    pub fn is_enabled(&self) -> (enabled: bool)
        ensures
            enabled == self@.enabled,
    {
        self.enabled
    }

    /// The target in bytes per second, while the throttle is enabled.
    pub fn get_rate_limit(&self) -> (limit: Option<u64>)
        ensures
            limit == (if self@.enabled {
                Some(self@.target_bps)
            } else {
                None
            }),
    {
        if self.enabled {
            Some(self.bytes_per_second)
        } else {
            None
        }
    }

    /// All the bytes recorded since the throttle was made.
    pub fn get_total_transferred(&self) -> (total: u64)
        ensures
            total == self@.total_bytes,
    {
        self.total_bytes_transferred
    }

    /// The bytes recorded in the current window.
    pub fn get_window_bytes(&self) -> (bytes: u64)
        ensures
            bytes == self@.bytes_in_window,
    {
        self.bytes_transferred
    }

    /// Nanoseconds from the start of the current window to `now`.
    pub fn get_window_elapsed(&self, now: u64) -> (nanos: u64)
        ensures
            nanos == self@.elapsed(now),
    {
        if now >= self.window_start {
            now - self.window_start
        } else {
            0
        }
    }

    /// Counts `bytes` more bytes, moved by time `now`.
    pub fn record_transfer(&mut self, bytes: u64, now: u64)
        ensures
            final(self)@ == old(self)@.recorded(bytes, now),
    {
        self.bytes_transferred = self.bytes_transferred.saturating_add(bytes);
        self.total_bytes_transferred = self.total_bytes_transferred.saturating_add(bytes);
        if self.get_window_elapsed(now) >= NANOS_PER_SECOND {
            self.window_start = now;
            self.bytes_transferred = 0;
        }
    }

    /// Applies the throttle at time `now` and returns the nanoseconds for
    /// which the caller has to pause.
    pub fn throttle(&mut self, now: u64) -> (pause: u64)
        ensures
            pause == old(self)@.pause(now),
            final(self)@ == old(self)@.throttled(now),
    {
        if !self.enabled || self.bytes_per_second == 0 {
            return 0;
        }
        assert(self.bytes_transferred as int * NANOS_PER_SECOND as int == self.bytes_transferred
            as int * 1000000000);
        let ideal: u128 = (self.bytes_transferred as u128 * NANOS_PER_SECOND as u128
            + self.bytes_per_second as u128 - 1) / self.bytes_per_second as u128;
        let elapsed: u128 = self.get_window_elapsed(now) as u128;
        if elapsed < ideal {
            let lacking: u128 = ideal - elapsed;
            let pause: u64 = if lacking <= u64::MAX as u128 {
                lacking as u64
            } else {
                u64::MAX
            };
            self.window_start = now.saturating_add(pause);
            self.bytes_transferred = 0;
            pause
        } else {
            0
        }
    }

    /// Counts a chunk of `chunk_size` bytes, moved by time `now`, of a
    /// transfer of `total_size` bytes in all, applies the throttle, and
    /// returns the nanoseconds for which the caller has to pause. A disabled
    /// throttle counts nothing.
    ///
    /// In a transfer of more than ten seconds at the target rate the
    /// throttle is applied a second time whenever the progress has just
    /// passed a tenth of the whole. The second application never adds to the
    /// pause nor changes the state: the first one has settled the window.
    pub fn throttle_chunk(&mut self, chunk_size: usize, total_size: u64, now: u64) -> (pause: u64)
        ensures
            pause == old(self)@.chunk_pause(chunk_size, now),
            final(self)@ == old(self)@.chunk_throttled(chunk_size, now),
    {
        if !self.enabled {
            return 0;
        }
        self.record_transfer(chunk_size as u64, now);
        let ghost recorded = self@;
        let pause: u64 = self.throttle(now);
        if self.reapplies(total_size) {
            proof {
                lemma_second_application_is_idle(recorded, now);
            }
            let again: u64 = self.throttle(now.saturating_add(pause));
            return pause.saturating_add(again);
        }
        pause
    }

    /// True when a transfer of `total_size` bytes is long enough, and far
    /// enough along, for the throttle to be applied once more after a chunk.
    pub fn reapplies(&self, total_size: u64) -> (again: bool)
        ensures
            again == self@.reapplies(total_size),
    {
        if total_size as u128 > self.bytes_per_second as u128 * 10 {
            let progress: u128 = (10 * self.total_bytes_transferred as u128) % (total_size as u128);
            10 * progress < total_size as u128
        } else {
            false
        }
    }
}

/// The length that a window has once the pause has been taken covers its
/// bytes at the target rate: the bytes of the window, moved in the time
/// from the start of the window to the end of the pause, do not exceed the
/// target. This holds of a clock that does not run backwards and whose
/// range holds the ideal end of the window.
pub proof fn lemma_pause_meets_target(state: ThrottleState, now: u64)
    requires
        state.limits(),
        state.window_start <= now,
        state.window_start + state.ideal_nanos() <= u64::MAX,
    ensures
        (now + state.pause(now) - state.window_start) * state.target_bps >= state.bytes_in_window
            * NANOS_PER_SECOND,
{
    let bps = state.target_bps as int;
    let work = state.bytes_in_window as int * NANOS_PER_SECOND as int;
    let ideal = state.ideal_nanos();
    assert(ideal * bps >= work) by {
        lemma_rounded_up_quotient(work, bps);
    }
    let waited = now + state.pause(now) - state.window_start;
    assert(waited >= ideal);
    assert(waited * bps >= ideal * bps) by (nonlinear_arith)
        requires
            waited >= ideal,
            bps > 0,
    ;
}

/// A quotient rounded up, times the divisor, is no less than the dividend.
pub proof fn lemma_rounded_up_quotient(x: int, d: int)
    requires
        x >= 0,
        d > 0,
    ensures
        ((x + d - 1) / d) * d >= x,
{
    let y = x + d - 1;
    assert(y == d * (y / d) + y % d) by (nonlinear_arith)
        requires
            d > 0,
    ;
    assert(0 <= y % d < d) by (nonlinear_arith)
        requires
            d > 0,
    ;
    assert((y / d) * d == d * (y / d)) by (nonlinear_arith);
}

/// A throttle that is off never asks for a pause and never changes when it
/// is applied.
pub proof fn lemma_idle_when_off(state: ThrottleState, now: u64)
    requires
        !state.limits(),
    ensures
        state.pause(now) == 0,
        state.throttled(now) == state,
{
}

/// Applying the throttle again at the end of the pause that it has just
/// asked for gives no second pause and changes nothing.
pub proof fn lemma_second_application_is_idle(state: ThrottleState, now: u64)
    ensures
        state.throttled(now).pause(capped_sum(now, state.pause(now))) == 0,
        state.throttled(now).throttled(capped_sum(now, state.pause(now))) == state.throttled(now),
{
    if state.pause(now) > 0 {
        let after = state.throttled(now);
        assert(after.bytes_in_window == 0);
        if after.limits() {
            assert(after.ideal_nanos() == 0) by {
                let d = after.target_bps as int;
                assert((d - 1) / d == 0) by (nonlinear_arith)
                    requires
                        d > 0,
                ;
            }
        }
    }
}

/// The count of all bytes never goes down.
pub proof fn lemma_total_never_decreases(state: ThrottleState, bytes: u64, now: u64)
    ensures
        state.recorded(bytes, now).total_bytes >= state.total_bytes,
        state.recorded(bytes, now).throttled(now).total_bytes >= state.total_bytes,
{
}

impl ThrottleState {
    /// True when the windows that have been closed since time `since` have
    /// lasted long enough for all their bytes at the target rate.
    pub open spec fn held_to_rate(self, since: u64) -> bool {
        &&& since <= self.window_start
        &&& self.bytes_in_window <= self.total_bytes
        &&& (self.window_start - since) * self.target_bps >= (self.total_bytes
            - self.bytes_in_window) * NANOS_PER_SECOND
    }
}

/// A throttle that has just been made has nothing to answer for.
pub proof fn lemma_started_held_to_rate(
    bytes_per_second: Option<u64>,
    megabytes_per_minute: Option<u64>,
    now: u64,
)
    ensures
        ThrottleState::started(bytes_per_second, megabytes_per_minute, now).held_to_rate(now),
{
}

/// A transfer whose chunks all go through the throttle is held to the
/// target rate: when the pause after a chunk has been taken, the time since
/// the throttle was made is at least the time that all the bytes moved
/// since then take at the target rate.
///
/// This is the step from one chunk to the next. It holds while no window
/// is started afresh for being a second old: the bytes of the chunk that
/// comes in at such a moment are not counted against the new window. It
/// holds of a clock that does not run backwards, and of counts and times
/// within the range of 64 bits.
pub proof fn lemma_chunk_held_to_rate(
    state: ThrottleState,
    since: u64,
    chunk_size: usize,
    now: u64,
)
    requires
        state.limits(),
        state.held_to_rate(since),
        state.window_start <= now,
        state.elapsed(now) < NANOS_PER_SECOND,
        state.total_bytes + chunk_size <= u64::MAX,
        state.window_start + state.recorded(chunk_size as u64, now).ideal_nanos() <= u64::MAX,
    ensures
        state.chunk_throttled(chunk_size, now).held_to_rate(since),
        state.chunk_throttled(chunk_size, now).total_bytes == state.total_bytes + chunk_size,
        (now + state.chunk_pause(chunk_size, now) - since) * state.target_bps
            >= state.chunk_throttled(chunk_size, now).total_bytes * NANOS_PER_SECOND,
{
    let recorded = state.recorded(chunk_size as u64, now);
    let after = state.chunk_throttled(chunk_size, now);
    let pause = state.chunk_pause(chunk_size, now) as int;
    let bps = state.target_bps as int;
    let closed = (state.total_bytes - state.bytes_in_window) as int;
    let open = recorded.bytes_in_window as int;
    let before_window = (state.window_start - since) as int;
    let in_window = now + pause - state.window_start;
    assert(recorded.window_start == state.window_start);
    assert(open == state.bytes_in_window + chunk_size);
    lemma_pause_meets_target(recorded, now);
    assert(in_window * bps >= open * NANOS_PER_SECOND);
    assert(before_window * bps >= closed * NANOS_PER_SECOND);
    assert((before_window + in_window) * bps == before_window * bps + in_window * bps)
        by (nonlinear_arith);
    assert((closed + open) * NANOS_PER_SECOND == closed * NANOS_PER_SECOND + open
        * NANOS_PER_SECOND) by (nonlinear_arith);
    assert(now + pause - since == before_window + in_window);
    assert(after.total_bytes == closed + open);
    if pause > 0 {
        assert(after.window_start == now + pause);
        assert(after.bytes_in_window == 0);
    } else {
        assert(after == recorded);
    }
}

/// The state of a throttle after the chunks of a transfer have gone through
/// it, each given by its size and by the time at which it came in.
pub open spec fn fed(state: ThrottleState, chunks: Seq<(usize, u64)>) -> ThrottleState
    decreases chunks.len(),
{
    if chunks.len() == 0 {
        state
    } else {
        fed(state, chunks.drop_last()).chunk_throttled(chunks.last().0, chunks.last().1)
    }
}

/// The time at which the transfer may go on after the chunks: the time at
/// which the last chunk came in plus the pause that it called for, and
/// `since` before the first chunk.
pub open spec fn resumes(state: ThrottleState, since: u64, chunks: Seq<(usize, u64)>) -> int {
    if chunks.len() == 0 {
        since as int
    } else {
        chunks.last().1 + fed(state, chunks.drop_last()).chunk_pause(
            chunks.last().0,
            chunks.last().1,
        )
    }
}

/// The bytes of all the chunks together.
pub open spec fn bytes_fed(chunks: Seq<(usize, u64)>) -> int
    decreases chunks.len(),
{
    if chunks.len() == 0 {
        0
    } else {
        bytes_fed(chunks.drop_last()) + chunks.last().0
    }
}

/// True when the driver keeps pace: no chunk comes in before the pause
/// after the chunk before it has ended, every chunk comes in less than a
/// second after its window has begun, and counts and times stay within the
/// range of 64 bits.
pub open spec fn well_paced(state: ThrottleState, since: u64, chunks: Seq<(usize, u64)>) -> bool
    decreases chunks.len(),
{
    chunks.len() == 0 || {
        let earlier = chunks.drop_last();
        let before = fed(state, earlier);
        let size = chunks.last().0;
        let now = chunks.last().1;
        &&& well_paced(state, since, earlier)
        &&& resumes(state, since, earlier) <= now
        &&& before.elapsed(now) < NANOS_PER_SECOND
        &&& before.total_bytes + size <= u64::MAX
        &&& before.window_start + before.recorded(size as u64, now).ideal_nanos() <= u64::MAX
    }
}

/// Moving `N` bytes through a throttle with the target `B` takes at least
/// `N / B` seconds: when the pause after the last chunk has been taken, the
/// time since the throttle was made, times the target, is no less than the
/// bytes moved. This holds of every transfer whose driver keeps pace, as
/// [`well_paced`] says.
pub proof fn lemma_transfer_held_to_rate(
    bytes_per_second: u64,
    since: u64,
    chunks: Seq<(usize, u64)>,
)
    requires
        bytes_per_second > 0,
        well_paced(ThrottleState::started(Some(bytes_per_second), None, since), since, chunks),
    ensures
        ({
            let start = ThrottleState::started(Some(bytes_per_second), None, since);
            &&& fed(start, chunks).total_bytes == bytes_fed(chunks)
            &&& fed(start, chunks).limits()
            &&& fed(start, chunks).target_bps == bytes_per_second
            &&& fed(start, chunks).held_to_rate(since)
            &&& fed(start, chunks).window_start <= resumes(start, since, chunks)
            &&& (resumes(start, since, chunks) - since) * bytes_per_second >= bytes_fed(chunks)
                * NANOS_PER_SECOND
        }),
    decreases chunks.len(),
{
    let start = ThrottleState::started(Some(bytes_per_second), None, since);
    if chunks.len() > 0 {
        let earlier = chunks.drop_last();
        lemma_transfer_held_to_rate(bytes_per_second, since, earlier);
        lemma_chunk_held_to_rate(fed(start, earlier), since, chunks.last().0, chunks.last().1);
    }
}

/// True when the driver keeps time: no chunk comes in before the pause
/// after the chunk before it has ended, and counts and times stay within
/// the range of 64 bits. Windows may grow a second old and start afresh.
pub open spec fn keeps_time(state: ThrottleState, since: u64, chunks: Seq<(usize, u64)>) -> bool
    decreases chunks.len(),
{
    chunks.len() == 0 || {
        let earlier = chunks.drop_last();
        let before = fed(state, earlier);
        let size = chunks.last().0;
        let now = chunks.last().1;
        &&& keeps_time(state, since, earlier)
        &&& resumes(state, since, earlier) <= now
        &&& before.total_bytes + size <= u64::MAX
        &&& before.recorded(size as u64, now).window_start + before.recorded(
            size as u64,
            now,
        ).ideal_nanos() <= u64::MAX
    }
}

/// The number of chunks that found their window a second old, so that a
/// new window was started.
pub open spec fn restarts(state: ThrottleState, chunks: Seq<(usize, u64)>) -> int
    decreases chunks.len(),
{
    if chunks.len() == 0 {
        0
    } else {
        restarts(state, chunks.drop_last()) + if fed(state, chunks.drop_last()).elapsed(
            chunks.last().1,
        ) >= NANOS_PER_SECOND {
            1int
        } else {
            0int
        }
    }
}

/// The bytes of the chunks that found their window a second old. The new
/// window starts empty, so these bytes are never paused for.
pub open spec fn escaped_bytes(state: ThrottleState, chunks: Seq<(usize, u64)>) -> int
    decreases chunks.len(),
{
    if chunks.len() == 0 {
        0
    } else {
        escaped_bytes(state, chunks.drop_last()) + if fed(state, chunks.drop_last()).elapsed(
            chunks.last().1,
        ) >= NANOS_PER_SECOND {
            chunks.last().0 as int
        } else {
            0int
        }
    }
}

/// The step from one chunk to the next for a throttle whose windows may
/// start afresh: what the closed windows and the open window have lasted
/// covers all the bytes but `escaped`, before the chunk and after it.
proof fn lemma_chunk_held_but_for_restarts(
    state: ThrottleState,
    since: u64,
    resumed: int,
    escaped: int,
    chunk_size: usize,
    now: u64,
)
    requires
        state.limits(),
        since <= state.window_start <= resumed <= now,
        state.bytes_in_window <= state.total_bytes,
        (state.window_start - since) * state.target_bps >= (state.total_bytes
            - state.bytes_in_window - escaped) * NANOS_PER_SECOND,
        (resumed - state.window_start) * state.target_bps >= state.bytes_in_window
            * NANOS_PER_SECOND,
        state.total_bytes + chunk_size <= u64::MAX,
        state.recorded(chunk_size as u64, now).window_start + state.recorded(
            chunk_size as u64,
            now,
        ).ideal_nanos() <= u64::MAX,
    ensures
        ({
            let after = state.chunk_throttled(chunk_size, now);
            let resumes_at = now + state.chunk_pause(chunk_size, now);
            let restarted = state.elapsed(now) >= NANOS_PER_SECOND;
            let escapes = if restarted {
                escaped + chunk_size
            } else {
                escaped
            };
            &&& after.limits()
            &&& after.target_bps == state.target_bps
            &&& after.total_bytes == state.total_bytes + chunk_size
            &&& after.bytes_in_window <= after.total_bytes
            &&& state.window_start <= after.window_start <= resumes_at
            &&& restarted ==> after.window_start - state.window_start >= NANOS_PER_SECOND
            &&& (after.window_start - since) * after.target_bps >= (after.total_bytes
                - after.bytes_in_window - escapes) * NANOS_PER_SECOND
            &&& (resumes_at - after.window_start) * after.target_bps >= after.bytes_in_window
                * NANOS_PER_SECOND
        }),
{
    let recorded = state.recorded(chunk_size as u64, now);
    let after = state.chunk_throttled(chunk_size, now);
    let pause = state.chunk_pause(chunk_size, now) as int;
    let bps = state.target_bps as int;
    let closed = state.window_start - since;
    let paid = (state.total_bytes - state.bytes_in_window - escaped) as int;
    let open = state.bytes_in_window as int;
    if state.elapsed(now) >= NANOS_PER_SECOND {
        assert(recorded.bytes_in_window == 0 && recorded.window_start == now);
        assert(recorded.ideal_nanos() == 0) by {
            assert((bps - 1) / bps == 0) by (nonlinear_arith)
                requires
                    bps > 0,
            ;
        }
        assert(after == recorded);
        let waited = now - state.window_start;
        assert(waited * bps >= (resumed - state.window_start) * bps) by (nonlinear_arith)
            requires
                waited >= resumed - state.window_start,
                bps > 0,
        ;
        assert((closed + waited) * bps == closed * bps + waited * bps) by (nonlinear_arith);
        assert((paid + open) * NANOS_PER_SECOND == paid * NANOS_PER_SECOND + open
            * NANOS_PER_SECOND) by (nonlinear_arith);
        assert(now - since == closed + waited);
        assert(after.total_bytes - after.bytes_in_window - (escaped + chunk_size) == paid + open);
        assert((now + pause - after.window_start) * bps == 0) by (nonlinear_arith)
            requires
                now + pause - after.window_start == 0,
        ;
        assert(after.bytes_in_window * NANOS_PER_SECOND == 0) by (nonlinear_arith)
            requires
                after.bytes_in_window == 0,
        ;
    } else {
        assert(recorded.window_start == state.window_start);
        assert(recorded.bytes_in_window == open + chunk_size);
        lemma_pause_meets_target(recorded, now);
        let lasted = now + pause - state.window_start;
        assert(lasted * bps >= (open + chunk_size) * NANOS_PER_SECOND);
        if pause > 0 {
            assert(after.window_start == now + pause);
            assert(after.bytes_in_window == 0);
            assert((closed + lasted) * bps == closed * bps + lasted * bps) by (nonlinear_arith);
            assert((paid + (open + chunk_size)) * NANOS_PER_SECOND == paid * NANOS_PER_SECOND
                + (open + chunk_size) * NANOS_PER_SECOND) by (nonlinear_arith);
            assert(after.window_start - since == closed + lasted);
            assert(after.total_bytes - after.bytes_in_window - escaped == paid + (open
                + chunk_size));
            assert((now + pause - after.window_start) * bps == 0) by (nonlinear_arith)
                requires
                    now + pause - after.window_start == 0,
            ;
            assert(after.bytes_in_window * NANOS_PER_SECOND == 0) by (nonlinear_arith)
                requires
                    after.bytes_in_window == 0,
            ;
        } else {
            assert(after == recorded);
            assert(after.total_bytes - after.bytes_in_window - escaped == paid);
        }
    }
}

/// Moving bytes through a throttle with the target `B` takes at least the
/// time that the bytes take at `B`, but for the chunks that found their
/// window a second old: when the pause after the last chunk has been taken,
/// the time since the throttle was made, times the target, is no less than
/// the bytes moved less the bytes that escaped. At most one chunk escapes
/// for each full second that the transfer has lasted.
///
/// This holds of every transfer whose driver keeps time, as [`keeps_time`]
/// says. No bound without the escaped bytes holds of such a transfer: a
/// chunk that comes in a full second after its window began is never
/// paused for, however large it is.
pub proof fn lemma_transfer_held_but_for_restarts(
    bytes_per_second: u64,
    since: u64,
    chunks: Seq<(usize, u64)>,
)
    requires
        bytes_per_second > 0,
        keeps_time(ThrottleState::started(Some(bytes_per_second), None, since), since, chunks),
    ensures
        ({
            let start = ThrottleState::started(Some(bytes_per_second), None, since);
            let end = fed(start, chunks);
            let resumed = resumes(start, since, chunks);
            &&& end.total_bytes == bytes_fed(chunks)
            &&& end.limits()
            &&& end.target_bps == bytes_per_second
            &&& end.bytes_in_window <= end.total_bytes
            &&& since <= end.window_start <= resumed
            &&& 0 <= escaped_bytes(start, chunks) <= bytes_fed(chunks)
            &&& 0 <= restarts(start, chunks) <= chunks.len()
            &&& restarts(start, chunks) * NANOS_PER_SECOND <= end.window_start - since
            &&& (end.window_start - since) * bytes_per_second >= (end.total_bytes
                - end.bytes_in_window - escaped_bytes(start, chunks)) * NANOS_PER_SECOND
            &&& (resumed - end.window_start) * bytes_per_second >= end.bytes_in_window
                * NANOS_PER_SECOND
            &&& (resumed - since) * bytes_per_second >= (bytes_fed(chunks) - escaped_bytes(
                start,
                chunks,
            )) * NANOS_PER_SECOND
        }),
    decreases chunks.len(),
{
    let start = ThrottleState::started(Some(bytes_per_second), None, since);
    let bps = bytes_per_second as int;
    if chunks.len() > 0 {
        let earlier = chunks.drop_last();
        lemma_transfer_held_but_for_restarts(bytes_per_second, since, earlier);
        lemma_chunk_held_but_for_restarts(
            fed(start, earlier),
            since,
            resumes(start, since, earlier),
            escaped_bytes(start, earlier),
            chunks.last().0,
            chunks.last().1,
        );
        let before = fed(start, earlier);
        assert((restarts(start, earlier) + 1) * NANOS_PER_SECOND == restarts(start, earlier)
            * NANOS_PER_SECOND + NANOS_PER_SECOND) by (nonlinear_arith);
    }
    let end = fed(start, chunks);
    let resumed = resumes(start, since, chunks);
    let closed = end.window_start - since;
    let lasted = resumed - end.window_start;
    let paid = end.total_bytes - end.bytes_in_window - escaped_bytes(start, chunks);
    let open = end.bytes_in_window as int;
    assert((closed + lasted) * bps == closed * bps + lasted * bps) by (nonlinear_arith);
    assert((paid + open) * NANOS_PER_SECOND == paid * NANOS_PER_SECOND + open * NANOS_PER_SECOND)
        by (nonlinear_arith);
    assert(resumed - since == closed + lasted);
    assert(bytes_fed(chunks) - escaped_bytes(start, chunks) == paid + open);
}

} // verus!
