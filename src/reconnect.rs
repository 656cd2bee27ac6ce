//! Liveness state and backoff accounting for the single control connection.
use vstd::arithmetic::power2::{lemma_pow2_unfold, pow2};
use vstd::prelude::*;

verus! {

/// Consecutive failures tolerated before the connection is declared failed.
pub const MAX_RECONNECT_ATTEMPTS: usize = 5;

/// Backoff delay at the start of a failure episode, in milliseconds.
pub const INITIAL_RECONNECT_DELAY_MS: u64 = 1000;

/// Upper bound of the backoff delay, in milliseconds.
pub const MAX_RECONNECT_DELAY_MS: u64 = 30000;

/// Interval between two liveness pings on the control socket, in seconds.
pub const HEARTBEAT_INTERVAL_SECS: u64 = 30;

/// Bound on a single socket write, in seconds; reads wait twice as long.
pub const CONNECTION_TIMEOUT_SECS: u64 = 10;

/// Liveness of the control connection.
#[derive(Debug, Clone, Copy, PartialEq, Eq, Structural)]
pub enum ConnectionState {
    Connected,
    Disconnected,
    Reconnecting,
    Failed,
}

/// Attempt counter, backoff delay and state of the control connection.
#[derive(Debug, Clone)]
pub struct ReconnectInfo {
    pub attempts: usize,
    /// Delay before the next retry, in milliseconds.
    pub next_delay_ms: u64,
    /// When the last failure was recorded, in seconds since the Unix epoch.
    pub last_attempt: Option<u64>,
    pub state: ConnectionState,
}

/// The delay that follows `d` in a failure episode: twice `d`, capped.
pub open spec fn doubled_delay(d: u64) -> u64 {
    if 2 * d >= MAX_RECONNECT_DELAY_MS {
        MAX_RECONNECT_DELAY_MS
    } else {
        (2 * d) as u64
    }
}

/// The delay after `k` failures of one episode: the initial delay times `2^k`, capped.
pub open spec fn backoff_delay(k: nat) -> int {
    if INITIAL_RECONNECT_DELAY_MS * pow2(k) >= MAX_RECONNECT_DELAY_MS {
        MAX_RECONNECT_DELAY_MS as int
    } else {
        INITIAL_RECONNECT_DELAY_MS * pow2(k)
    }
}

/// The tracker as a fresh process has it.
pub open spec fn initial_info() -> ReconnectInfo {
    ReconnectInfo {
        attempts: 0,
        next_delay_ms: INITIAL_RECONNECT_DELAY_MS,
        last_attempt: None,
        state: ConnectionState::Disconnected,
    }
}

/// The tracker right after a connection was accepted.
pub open spec fn connected_info() -> ReconnectInfo {
    ReconnectInfo {
        attempts: 0,
        next_delay_ms: INITIAL_RECONNECT_DELAY_MS,
        last_attempt: None,
        state: ConnectionState::Connected,
    }
}

/// One more attempt, stamped at `now`, with the delay doubled.
pub open spec fn attempt_step(r: ReconnectInfo, now: u64) -> ReconnectInfo {
    ReconnectInfo {
        attempts: (r.attempts + 1) as usize,
        next_delay_ms: doubled_delay(r.next_delay_ms),
        last_attempt: Some(now),
        state: ConnectionState::Reconnecting,
    }
}

/// Whether a failure recorded on `r` still counts as a retry.
pub open spec fn may_retry(r: ReconnectInfo) -> bool {
    r.attempts < MAX_RECONNECT_ATTEMPTS && r.state != ConnectionState::Failed
}

/// The tracker after a failure is recorded at `now`.
pub open spec fn failure_step(r: ReconnectInfo, now: u64) -> ReconnectInfo {
    if may_retry(r) {
        attempt_step(r, now)
    } else {
        ReconnectInfo { state: ConnectionState::Failed, ..r }
    }
}

/// The tracker after one failure recorded at each of `times`, in order.
pub open spec fn after_failures(r: ReconnectInfo, times: Seq<u64>) -> ReconnectInfo
    decreases times.len(),
{
    if times.len() == 0 {
        r
    } else {
        failure_step(after_failures(r, times.drop_last()), times.last())
    }
}

/// The start of a failure episode: no attempt counted, initial delay, not failed.
pub open spec fn episode_start(r: ReconnectInfo) -> bool {
    r.attempts == 0 && r.next_delay_ms == INITIAL_RECONNECT_DELAY_MS && r.state
        != ConnectionState::Failed
}

impl ReconnectInfo {
    pub fn new() -> (r: Self)
        ensures
            r == initial_info(),
    {
        ReconnectInfo {
            attempts: 0,
            next_delay_ms: INITIAL_RECONNECT_DELAY_MS,
            last_attempt: None,
            state: ConnectionState::Disconnected,
        }
    }

    /// Starts a fresh episode on a live connection.
    pub fn reset(&mut self)
        ensures
            *final(self) == connected_info(),
    {
        self.attempts = 0;
        self.next_delay_ms = INITIAL_RECONNECT_DELAY_MS;
        self.last_attempt = None;
        self.state = ConnectionState::Connected;
    }

    /// Counts one more attempt at `now` and doubles the delay, capped.
    pub fn increment_attempt(&mut self, now: u64)
        requires
            old(self).attempts < usize::MAX,
        ensures
            *final(self) == attempt_step(*old(self), now),
    {
        self.attempts = self.attempts + 1;
        self.last_attempt = Some(now);
        self.state = ConnectionState::Reconnecting;
        if self.next_delay_ms >= MAX_RECONNECT_DELAY_MS / 2 {
            self.next_delay_ms = MAX_RECONNECT_DELAY_MS;
        } else {
            self.next_delay_ms = self.next_delay_ms * 2;
        }
    }

    pub fn should_attempt_reconnect(&self) -> (r: bool)
        ensures
            r == may_retry(*self),
    {
        self.attempts < MAX_RECONNECT_ATTEMPTS && self.state != ConnectionState::Failed
    }

    pub fn mark_failed(&mut self)
        ensures
            *final(self) == (ReconnectInfo { state: ConnectionState::Failed, ..*old(self) }),
    {
        self.state = ConnectionState::Failed;
    }

    /// Sets the state to `Connected` and starts a fresh episode.
    pub fn mark_connected(&mut self)
        ensures
            *final(self) == connected_info(),
    {
        self.reset();
    }

    /// Sets the state to `Disconnected`, leaving the counters alone.
    pub fn mark_disconnected(&mut self)
        ensures
            *final(self) == (ReconnectInfo { state: ConnectionState::Disconnected, ..*old(self) }),
    {
        self.state = ConnectionState::Disconnected;
    }

    /// Records a failure at `now`: counts it as a retry and returns true while
    /// retries are left, else marks the connection failed and returns false.
    pub fn record_failure(&mut self, now: u64) -> (r: bool)
        ensures
            r == may_retry(*old(self)),
            *final(self) == failure_step(*old(self), now),
    {
        if !self.should_attempt_reconnect() {
            self.mark_failed();
            return false;
        }
        self.increment_attempt(now);
        true
    }
}

/// Within one failure episode of at most `MAX_RECONNECT_ATTEMPTS` failures,
/// every failure is counted and the delay after `k` of them is the initial
/// delay times `2^k`, capped at the maximum delay; once all of them are
/// counted, the next failure is refused.
pub proof fn lemma_backoff_after_failures(r: ReconnectInfo, times: Seq<u64>)
    requires
        episode_start(r),
        times.len() <= MAX_RECONNECT_ATTEMPTS,
    ensures
        after_failures(r, times).attempts == times.len(),
        after_failures(r, times).next_delay_ms == backoff_delay(times.len()),
        times.len() > 0 ==> after_failures(r, times).state == ConnectionState::Reconnecting,
        times.len() > 0 ==> after_failures(r, times).last_attempt == Some(times.last()),
        times.len() == MAX_RECONNECT_ATTEMPTS ==> !may_retry(after_failures(r, times)),
    decreases times.len(),
{
    reveal_with_fuel(vstd::arithmetic::power::pow, 1);
    if times.len() == 0 {
        assert(pow2(0) == 1) by {
            vstd::arithmetic::power2::lemma_pow2(0);
            vstd::arithmetic::power::lemma_pow0(2);
        }
    } else {
        let prev = times.drop_last();
        lemma_backoff_after_failures(r, prev);
        let k = times.len();
        lemma_pow2_unfold(k);
        assert(prev.len() == (k - 1) as nat);
        let p = after_failures(r, prev);
        if prev.len() == 0 {
            assert(p.state != ConnectionState::Failed);
        }
        assert(may_retry(p));
    }
}

/// Once `MAX_RECONNECT_ATTEMPTS` failures of one episode are counted, every
/// further failure leaves the connection failed, and the attempt count stays
/// at `MAX_RECONNECT_ATTEMPTS`.
pub proof fn lemma_failed_after_exhaustion(r: ReconnectInfo, times: Seq<u64>)
    requires
        episode_start(r),
        times.len() > MAX_RECONNECT_ATTEMPTS,
    ensures
        after_failures(r, times).state == ConnectionState::Failed,
        after_failures(r, times).attempts == MAX_RECONNECT_ATTEMPTS,
        !may_retry(after_failures(r, times)),
    decreases times.len(),
{
    let prev = times.drop_last();
    if prev.len() == MAX_RECONNECT_ATTEMPTS {
        lemma_backoff_after_failures(r, prev);
    } else {
        lemma_failed_after_exhaustion(r, prev);
    }
}

/// A failure recorded on a failed connection is refused and changes nothing.
pub proof fn lemma_failed_is_terminal(r: ReconnectInfo, now: u64)
    requires
        r.state == ConnectionState::Failed,
    ensures
        !may_retry(r),
        failure_step(r, now) == r,
{
}

} // verus!
