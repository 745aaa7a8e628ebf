//! A byte allowance per client identity and time window.
//!
//! Time is counted in nanoseconds since the limiter was made.
use crate::clock::{elapsed_since, is_reading, nanos_since, read_clock};
use crate::config::RateLimitConfig;
use std::time::{Duration, Instant};
use vstd::hash_map::StringHashMap;
use vstd::prelude::*;

verus! {

/// Bytes counted for one identity, and when its current window began.
#[derive(Debug, Clone, Copy)]
pub struct WindowState {
    pub bytes: u64,
    pub window_start: u128,
}

pub struct RateLimiter {
    enabled: bool,
    bytes_per_window: u64,
    window: Duration,
    epoch: Instant,
    state: StringHashMap<WindowState>,
}

/// What a [`RateLimiter`] knows.
pub ghost struct RateLimiterView {
    pub enabled: bool,
    pub bytes_per_window: u64,
    /// The length of a window in nanoseconds.
    pub window: nat,
    pub usage: Map<Seq<char>, WindowState>,
}

/// `a + b`, or the largest `u64` where the sum is larger.
pub open spec fn saturating_sum(a: nat, b: nat) -> nat {
    if a + b > u64::MAX {
        u64::MAX as nat
    } else {
        a + b
    }
}

impl RateLimiterView {
    /// A limiter without any usage, as the configuration asks for it.
    pub open spec fn fresh(config: RateLimitConfig) -> Self {
        RateLimiterView {
            enabled: config.enabled,
            bytes_per_window: config.bytes_per_window,
            window: 1_000_000_000 * config.seconds(),
            usage: Map::empty(),
        }
    }

    /// Whether the window that `identity` is in has run out at time `at`.
    pub open spec fn expired(self, identity: Seq<char>, at: nat) -> bool {
        at - self.usage[identity].window_start >= self.window || self.window == 0
    }

    /// Whether `identity` may open a tunnel at time `at`.
    pub open spec fn allows(self, identity: Seq<char>, at: nat) -> bool {
        self.enabled && self.usage.contains_key(identity) ==> {
            ||| self.expired(identity, at)
            ||| self.usage[identity].bytes < self.bytes_per_window
        }
    }

    /// The limiter after `bytes` were counted for `identity`. A new window begins
    /// at `now` for an identity without a window, or whose window has run out at
    /// `at`; otherwise the bytes are added to those of the running window.
    pub open spec fn record(self, identity: Seq<char>, bytes: u64, now: u128, at: nat) -> Self {
        if !self.enabled {
            self
        } else if self.usage.contains_key(identity) && !self.expired(identity, at) {
            let before = self.usage[identity];
            let total = saturating_sum(before.bytes as nat, bytes as nat) as u64;
            RateLimiterView {
                usage: self.usage.insert(
                    identity,
                    WindowState { bytes: total, window_start: before.window_start },
                ),
                ..self
            }
        } else {
            RateLimiterView {
                usage: self.usage.insert(identity, WindowState { bytes, window_start: now }),
                ..self
            }
        }
    }
}

impl View for RateLimiter {
    type V = RateLimiterView;

    closed spec fn view(&self) -> RateLimiterView {
        RateLimiterView {
            enabled: self.enabled,
            bytes_per_window: self.bytes_per_window,
            window: crate::clock::duration_nanos(self.window),
            usage: self.state@,
        }
    }
}

/// The limiter that a configuration asks for.
pub fn apply(config: &RateLimitConfig) -> (limiter: RateLimiter)
    ensures
        limiter@ == RateLimiterView::fresh(*config),
        is_reading(limiter.origin()),
{
    RateLimiter::from_config(config)
}

impl RateLimiter {
    /// When the limiter was made: the moment from which its times are counted.
    pub closed spec fn origin(&self) -> Instant {
        self.epoch
    }

    pub fn from_config(config: &RateLimitConfig) -> (limiter: Self)
        ensures
            limiter@ == RateLimiterView::fresh(*config),
            is_reading(limiter.origin()),
    {
        RateLimiter {
            enabled: config.enabled,
            bytes_per_window: config.bytes_per_window,
            window: config.window(),
            epoch: read_clock(),
            state: StringHashMap::new(),
        }
    }

    /// Nanoseconds since the limiter was made, read off the clock.
    fn clock(&self) -> (at: u128)
        ensures
            elapsed_since(self.origin(), at),
    {
        nanos_since(&self.epoch)
    }

    /// Whether the window in `usage` has run out at time `at`.
    fn has_expired(&self, usage: WindowState, at: u128) -> (expired: bool)
        ensures
            expired == (at - usage.window_start >= self@.window || self@.window == 0),
    {
        at.saturating_sub(usage.window_start) >= self.window.as_nanos()
    }

    /// Whether `identity` may open a tunnel at time `at`.
    pub fn is_allowed_at(&self, identity: &str, at: u128) -> (allowed: bool)
        ensures
            allowed == self@.allows(identity@, at as nat),
    {
        if !self.enabled {
            return true;
        }
        match self.state.get(identity) {
            None => true,
            Some(usage) => {
                self.has_expired(*usage, at) || usage.bytes < self.bytes_per_window
            },
        }
    }

    /// Whether `identity` may open a tunnel now.
    ///
    /// The answer is the one that [`is_allowed_at`](Self::is_allowed_at) gives for the
    /// time that has gone by since the limiter was made.
    pub fn is_allowed(&self, identity: &str) -> (allowed: bool)
        ensures
            exists|at: u128|
                elapsed_since(self.origin(), at) && allowed == #[trigger] self@.allows(
                    identity@,
                    at as nat,
                ),
            !self@.enabled ==> allowed,
            !self@.usage.contains_key(identity@) ==> allowed,
            self@.usage.contains_key(identity@) && self@.usage[identity@].bytes
                < self@.bytes_per_window ==> allowed,
    {
        let at: u128 = self.clock();
        self.is_allowed_at(identity, at)
    }

    /// Counts `bytes` for `identity`, with `now` as the start of a new window, and
    /// `at` as the time at which a running window is looked at.
    pub fn record_bytes_at(&mut self, identity: &str, bytes: u64, now: u128, at: u128)
        ensures
            final(self)@ == old(self)@.record(identity@, bytes, now, at as nat),
            final(self).origin() == old(self).origin(),
    {
        if !self.enabled {
            return;
        }
        let entry: WindowState = match self.state.get(identity) {
            None => WindowState { bytes: 0, window_start: now },
            Some(usage) => *usage,
        };
        let next: WindowState = if self.has_expired(entry, at) {
            WindowState { bytes, window_start: now }
        } else {
            WindowState {
                bytes: entry.bytes.saturating_add(bytes),
                window_start: entry.window_start,
            }
        };
        self.state.insert(identity.to_owned(), next);
    }

    /// Counts `bytes` for `identity`, now.
    ///
    /// The effect is that of [`record_bytes_at`](Self::record_bytes_at) for two readings
    /// of the time that has gone by since the limiter was made.
    pub fn record_bytes(&mut self, identity: &str, bytes: u64)
        ensures
            exists|now: u128, at: u128|
                {
                    &&& elapsed_since(old(self).origin(), now)
                    &&& elapsed_since(old(self).origin(), at)
                    &&& final(self)@ == #[trigger] old(self)@.record(
                        identity@,
                        bytes,
                        now,
                        at as nat,
                    )
                },
            final(self).origin() == old(self).origin(),
    {
        let now: u128 = self.clock();
        let at: u128 = self.clock();
        self.record_bytes_at(identity, bytes, now, at);
        proof {
            let _ = old(self)@.record(identity@, bytes, now, at as nat);
        }
    }
}

/// A call of [`RateLimiter::record_bytes_at`].
pub ghost struct Recording {
    pub identity: Seq<char>,
    pub bytes: u64,
    pub now: u128,
    pub at: nat,
}

impl RateLimiterView {
    /// The limiter after all of `recordings` were made, in order, for whomever.
    pub open spec fn record_all(self, recordings: Seq<Recording>) -> Self
        decreases recordings.len(),
    {
        if recordings.len() == 0 {
            self
        } else {
            let last = recordings.last();
            self.record_all(recordings.drop_last()).record(
                last.identity,
                last.bytes,
                last.now,
                last.at,
            )
        }
    }
}

/// Those of `recordings` that were made for `identity`, in order.
pub open spec fn own_recordings(recordings: Seq<Recording>, identity: Seq<char>) -> Seq<Recording>
    decreases recordings.len(),
{
    if recordings.len() == 0 {
        Seq::empty()
    } else {
        let earlier = own_recordings(recordings.drop_last(), identity);
        if recordings.last().identity == identity {
            earlier.push(recordings.last())
        } else {
            earlier
        }
    }
}

/// The bytes of all of `recordings` together.
pub open spec fn total_bytes(recordings: Seq<Recording>) -> nat
    decreases recordings.len(),
{
    if recordings.len() == 0 {
        0
    } else {
        total_bytes(recordings.drop_last()) + recordings.last().bytes as nat
    }
}

/// A disabled limiter counts nothing and allows everyone at any time.
pub proof fn disabled_limiter_always_allows(
    limiter: RateLimiterView,
    recordings: Seq<Recording>,
    identity: Seq<char>,
    at: nat,
)
    requires
        !limiter.enabled,
    ensures
        limiter.record_all(recordings) == limiter,
        limiter.record_all(recordings).allows(identity, at),
    decreases recordings.len(),
{
    if recordings.len() > 0 {
        disabled_limiter_always_allows(limiter, recordings.drop_last(), identity, at);
    }
}

/// A limiter fresh from its configuration allows everyone at any time.
pub proof fn new_identity_is_allowed(config: RateLimitConfig, identity: Seq<char>, at: nat)
    ensures
        RateLimiterView::fresh(config).allows(identity, at),
{
}

/// An identity for which at least a window's allowance was counted at once is denied
/// until the window that those bytes were counted in has run out, and allowed from
/// then on.
pub proof fn spent_allowance_denies_until_window_ends(
    limiter: RateLimiterView,
    identity: Seq<char>,
    bytes: u64,
    now: u128,
    at: nat,
    later: nat,
)
    requires
        limiter.enabled,
        bytes >= limiter.bytes_per_window,
    ensures
        ({
            let after = limiter.record(identity, bytes, now, at);
            after.allows(identity, later) <==> (limiter.window == 0 || later
                >= after.usage[identity].window_start + limiter.window)
        }),
{
}

/// Counting bytes changes neither whether the limiter is enabled nor its allowance
/// nor the length of its windows.
pub proof fn recording_keeps_settings(limiter: RateLimiterView, recordings: Seq<Recording>)
    ensures
        limiter.record_all(recordings).enabled == limiter.enabled,
        limiter.record_all(recordings).bytes_per_window == limiter.bytes_per_window,
        limiter.record_all(recordings).window == limiter.window,
    decreases recordings.len(),
{
    if recordings.len() > 0 {
        recording_keeps_settings(limiter, recordings.drop_last());
    }
}

/// Whatever is counted for whomever, what an identity has used and whether it is allowed
/// comes from its own recordings alone.
pub proof fn only_own_recordings_matter(
    limiter: RateLimiterView,
    recordings: Seq<Recording>,
    identity: Seq<char>,
    at: nat,
)
    ensures
        ({
            let after = limiter.record_all(recordings);
            let alone = limiter.record_all(own_recordings(recordings, identity));
            &&& after.usage.contains_key(identity) == alone.usage.contains_key(identity)
            &&& after.usage[identity] == alone.usage[identity]
            &&& after.allows(identity, at) == alone.allows(identity, at)
        }),
    decreases recordings.len(),
{
    recording_keeps_settings(limiter, recordings);
    recording_keeps_settings(limiter, own_recordings(recordings, identity));
    if recordings.len() > 0 {
        let earlier = recordings.drop_last();
        let own = own_recordings(earlier, identity);
        only_own_recordings_matter(limiter, earlier, identity, at);
        recording_keeps_settings(limiter, earlier);
        recording_keeps_settings(limiter, own);
        if recordings.last().identity == identity {
            assert(own.push(recordings.last()).drop_last() == own);
        }
    }
}

/// What is counted for others changes nothing for an identity.
pub proof fn identities_are_independent(
    limiter: RateLimiterView,
    recordings: Seq<Recording>,
    identity: Seq<char>,
    at: nat,
)
    requires
        forall|i: int|
            0 <= i < recordings.len() ==> (#[trigger] recordings[i]).identity != identity,
    ensures
        limiter.record_all(recordings).allows(identity, at) == limiter.allows(identity, at),
        limiter.record_all(recordings).usage.contains_key(identity)
            == limiter.usage.contains_key(identity),
        limiter.record_all(recordings).usage[identity] == limiter.usage[identity],
{
    strangers_have_no_own_recordings(recordings, identity);
    only_own_recordings_matter(limiter, recordings, identity, at);
}

proof fn strangers_have_no_own_recordings(recordings: Seq<Recording>, identity: Seq<char>)
    requires
        forall|i: int|
            0 <= i < recordings.len() ==> (#[trigger] recordings[i]).identity != identity,
    ensures
        own_recordings(recordings, identity).len() == 0,
    decreases recordings.len(),
{
    if recordings.len() > 0 {
        assert(recordings[recordings.len() - 1].identity != identity);
        assert forall|i: int| 0 <= i < recordings.drop_last().len() implies (
        #[trigger] recordings.drop_last()[i]).identity != identity by {
            assert(recordings[i].identity != identity);
        }
        strangers_have_no_own_recordings(recordings.drop_last(), identity);
    }
}

/// All that is counted for an identity within one window adds up, whatever is counted
/// for others in between: the first of its recordings begins the window, and as long as
/// none of its later ones finds it run out, the window holds the sum of all its bytes,
/// capped at the largest `u64`. Until the window ends the identity is allowed just where
/// that sum is below the allowance.
pub proof fn recordings_in_a_window_accumulate(
    limiter: RateLimiterView,
    recordings: Seq<Recording>,
    identity: Seq<char>,
    later: nat,
)
    requires
        limiter.enabled,
        limiter.window > 0,
        ({
            let own = own_recordings(recordings, identity);
            &&& own.len() > 0
            &&& limiter.usage.contains_key(identity) ==> limiter.expired(identity, own[0].at)
            &&& forall|i: int|
                0 < i < own.len() ==> (#[trigger] own[i]).at < own[0].now + limiter.window
            &&& later < own[0].now + limiter.window
        }),
    ensures
        ({
            let own = own_recordings(recordings, identity);
            let after = limiter.record_all(recordings);
            &&& after.usage.contains_key(identity)
            &&& after.usage[identity].window_start == own[0].now
            &&& after.usage[identity].bytes == saturating_sum(total_bytes(own), 0)
            &&& after.allows(identity, later) <==> total_bytes(own) < limiter.bytes_per_window
        }),
{
    let own = own_recordings(recordings, identity);
    own_recordings_are_own(recordings, identity);
    lone_recordings_accumulate(limiter, own, identity);
    recording_keeps_settings(limiter, own);
    recording_keeps_settings(limiter, recordings);
    only_own_recordings_matter(limiter, recordings, identity, later);
}

proof fn own_recordings_are_own(recordings: Seq<Recording>, identity: Seq<char>)
    ensures
        forall|i: int|
            0 <= i < own_recordings(recordings, identity).len() ==> (
            #[trigger] own_recordings(recordings, identity)[i]).identity == identity,
    decreases recordings.len(),
{
    if recordings.len() > 0 {
        own_recordings_are_own(recordings.drop_last(), identity);
        let own = own_recordings(recordings, identity);
        let earlier = own_recordings(recordings.drop_last(), identity);
        assert forall|i: int| 0 <= i < own.len() implies (#[trigger] own[i]).identity
            == identity by {
            if i < earlier.len() {
                assert(own[i] == earlier[i]);
            }
        }
    }
}

proof fn lone_recordings_accumulate(
    limiter: RateLimiterView,
    recordings: Seq<Recording>,
    identity: Seq<char>,
)
    requires
        limiter.enabled,
        limiter.window > 0,
        recordings.len() > 0,
        forall|i: int|
            0 <= i < recordings.len() ==> (#[trigger] recordings[i]).identity == identity,
        limiter.usage.contains_key(identity) ==> limiter.expired(identity, recordings[0].at),
        forall|i: int|
            0 < i < recordings.len() ==> (#[trigger] recordings[i]).at < recordings[0].now
                + limiter.window,
    ensures
        ({
            let after = limiter.record_all(recordings);
            &&& after.usage.contains_key(identity)
            &&& after.usage[identity].window_start == recordings[0].now
            &&& after.usage[identity].bytes == saturating_sum(total_bytes(recordings), 0)
        }),
    decreases recordings.len(),
{
    let earlier = recordings.drop_last();
    assert(recordings[recordings.len() - 1] == recordings.last());
    if recordings.len() == 1 {
        assert(limiter.record_all(earlier) == limiter);
        assert(total_bytes(earlier) == 0);
    } else {
        assert forall|i: int| 0 <= i < earlier.len() implies (#[trigger] earlier[i]).identity
            == identity && (0 < i ==> earlier[i].at < earlier[0].now + limiter.window) by {
            assert(earlier[i] == recordings[i]);
        }
        lone_recordings_accumulate(limiter, earlier, identity);
        recording_keeps_settings(limiter, earlier);
    }
}

/// Once its window has run out an identity is allowed, and the next bytes counted
/// for it begin a new window that holds those bytes alone.
pub proof fn expired_window_resets_on_next_record(
    limiter: RateLimiterView,
    identity: Seq<char>,
    bytes: u64,
    now: u128,
    at: nat,
)
    requires
        limiter.enabled,
        limiter.usage.contains_key(identity),
        limiter.expired(identity, at),
    ensures
        limiter.allows(identity, at),
        limiter.record(identity, bytes, now, at).usage[identity] == (WindowState {
            bytes,
            window_start: now,
        }),
{
}

/// Counting more bytes in a window that has not run out lifts no denial.
pub proof fn denial_outlasts_further_bytes(
    limiter: RateLimiterView,
    identity: Seq<char>,
    bytes: u64,
    now: u128,
    at: nat,
    later: nat,
)
    requires
        !limiter.allows(identity, later),
        !limiter.expired(identity, at),
    ensures
        !limiter.record(identity, bytes, now, at).allows(identity, later),
{
}

/// A new limiter is as enabled and allows as much as its configuration says. Its windows
/// are as many seconds long as configured, or an hour, and it has counted nothing.
pub proof fn a_new_limiter_is_as_configured(config: RateLimitConfig)
    ensures
        RateLimiterView::fresh(config).enabled == config.enabled,
        RateLimiterView::fresh(config).bytes_per_window == config.bytes_per_window,
        config.window_secs matches Some(secs) ==> RateLimiterView::fresh(config).window == secs
            * 1_000_000_000,
        config.window_secs is None ==> RateLimiterView::fresh(config).window
            == 3_600_000_000_000,
        forall|identity: Seq<char>|
            !(#[trigger] RateLimiterView::fresh(config).usage.contains_key(identity)),
{
}

/// Who is allowed: everyone where the limiter is disabled; an identity that nothing was
/// counted for; and an identity whose window has lasted its length, or holds fewer bytes
/// than the allowance. No one else.
pub proof fn the_allowance_decides_within_the_window(
    limiter: RateLimiterView,
    identity: Seq<char>,
    at: nat,
)
    ensures
        !limiter.enabled ==> limiter.allows(identity, at),
        !limiter.usage.contains_key(identity) ==> limiter.allows(identity, at),
        limiter.enabled && limiter.usage.contains_key(identity) && limiter.window > 0 ==> (
        limiter.allows(identity, at) <==> (at >= limiter.usage[identity].window_start
            + limiter.window || limiter.usage[identity].bytes < limiter.bytes_per_window)),
        limiter.window == 0 ==> limiter.allows(identity, at),
{
}

/// Bytes counted once a window has lasted its length begin a new one that holds them
/// alone, however many bytes the old one held; so do the first bytes of an identity. Bytes
/// counted earlier are added to the window, which keeps its start.
pub proof fn the_time_of_counting_picks_the_window(
    limiter: RateLimiterView,
    identity: Seq<char>,
    bytes: u64,
    now: u128,
    at: nat,
)
    requires
        limiter.enabled,
    ensures
        ({
            let usage = limiter.record(identity, bytes, now, at).usage;
            let before = limiter.usage[identity];
            &&& usage.contains_key(identity)
            &&& !limiter.usage.contains_key(identity) ==> usage[identity].bytes == bytes
                && usage[identity].window_start == now
            &&& limiter.window == 0 || at >= before.window_start + limiter.window
                ==> usage[identity].bytes == bytes && usage[identity].window_start == now
            &&& limiter.usage.contains_key(identity) && at < before.window_start + limiter.window
                && limiter.window > 0 ==> {
                &&& usage[identity].window_start == before.window_start
                &&& before.bytes + bytes <= u64::MAX ==> usage[identity].bytes == before.bytes
                    + bytes
                &&& before.bytes + bytes > u64::MAX ==> usage[identity].bytes == u64::MAX
            }
        }),
{
}

/// Counting bytes for an identity touches nothing but the usage of that identity, and
/// nothing at all where the limiter is disabled.
pub proof fn counting_touches_one_identity(
    limiter: RateLimiterView,
    identity: Seq<char>,
    bytes: u64,
    now: u128,
    at: nat,
    other: Seq<char>,
)
    ensures
        ({
            let after = limiter.record(identity, bytes, now, at);
            &&& after.enabled == limiter.enabled
            &&& after.bytes_per_window == limiter.bytes_per_window
            &&& after.window == limiter.window
            &&& !limiter.enabled ==> after == limiter
            &&& other != identity ==> after.usage.contains_key(other)
                == limiter.usage.contains_key(other) && after.usage[other] == limiter.usage[other]
        }),
{
}

/// A client of a new limiter that has carried bytes once may go on within the window just
/// where those were fewer than configured, and may go on in any case when the window is
/// over.
pub proof fn a_first_tunnel_is_held_to_the_configured_allowance(
    config: RateLimitConfig,
    secs: u64,
    identity: Seq<char>,
    bytes: u64,
    now: u128,
    at: nat,
    later: nat,
)
    requires
        config.enabled,
        config.window_secs == Some(secs) || config.window_secs is None && secs == 3600,
        secs > 0,
    ensures
        RateLimiterView::fresh(config).record(identity, bytes, now, at).allows(identity, later)
            <==> bytes < config.bytes_per_window || later >= now + secs * 1_000_000_000,
{
}

/// Sums stop at the largest `u64`.
pub proof fn sums_stop_at_the_largest(a: nat, b: nat)
    ensures
        saturating_sum(a, b) <= u64::MAX,
        a + b <= u64::MAX ==> saturating_sum(a, b) == a + b,
        a + b > u64::MAX ==> saturating_sum(a, b) == u64::MAX,
{
}

} // verus!
