use crate::cache::{update_aurora_activity, upserted, ActivityCache, ActivityData};
use crate::feed::AuroraWatchError;
use crate::time::{Timestamp, MICROS_PER_DAY, MICROS_PER_HOUR, MICROS_PER_SECOND};
use vstd::arithmetic::div_mod::{lemma_fundamental_div_mod, lemma_fundamental_div_mod_converse_mod};
use vstd::prelude::*;

verus! {

/// The alert level is evaluated every five minutes.
pub const ALERT_INTERVAL_SECONDS: u64 = 300;

/// The activity feed is fetched every five minutes.
pub const INGESTION_INTERVAL_SECONDS: u64 = 300;

/// The three periodic tasks.
#[derive(Clone, Copy, Debug, PartialEq, Eq, Structural)]
pub enum Task {
    /// Evaluates the alert level and alerts subscribers.
    Alert,
    /// Fetches the activity feed into the cache.
    Ingestion,
    /// Removes the subscribers that never verified their address.
    Hygiene,
}

/// How far `now` is into its unit of `unit` microseconds: the remainder of
/// the floored division, also before the epoch.
pub open spec fn micros_into(now: int, unit: int) -> int {
    now % unit
}

/// The first midnight, in UTC, strictly after `now`.
pub open spec fn next_midnight(now: int) -> int {
    now - micros_into(now, MICROS_PER_DAY as int) + MICROS_PER_DAY
}

/// The time from `now`, at which a run of the task begins, to its next run,
/// in microseconds: the fixed period of the alert and ingestion tasks, or the
/// time until the next midnight.
pub open spec fn wait_after_run(task: Task, now: int) -> int {
    match task {
        Task::Alert => ALERT_INTERVAL_SECONDS * MICROS_PER_SECOND,
        Task::Ingestion => INGESTION_INTERVAL_SECONDS * MICROS_PER_SECOND,
        Task::Hygiene => next_midnight(now) - now,
    }
}

/// How far `now` is into its unit of `unit` microseconds.
pub fn remainder_in(now: Timestamp, unit: i64) -> (into: i64)
    requires
        0 < unit,
    ensures
        into == micros_into(now@, unit as int),
        0 <= into < unit,
{
    if now.micros >= 0 {
        now.micros % unit
    } else {
        // Before the epoch the machine's remainder is taken of a number
        // that is not negative.
        let behind: i64 = -(now.micros + 1);
        let back: i64 = behind % unit;
        proof {
            let n = now.micros as int;
            let u = unit as int;
            let q = (-(n + 1)) / u;
            let b = (-(n + 1)) % u;
            lemma_fundamental_div_mod(-(n + 1), u);
            assert(n == (-q - 1) * u + (u - 1 - b)) by (nonlinear_arith)
                requires
                    -(n + 1) == u * q + b,
            ;
            lemma_fundamental_div_mod_converse_mod(n, u, -q - 1, u - 1 - b);
        }
        unit - 1 - back
    }
}

/// The start of the hour that `now` lies in.
pub fn start_of_hour(now: Timestamp) -> (start: Timestamp)
    requires
        now@ - micros_into(now@, MICROS_PER_HOUR as int) >= i64::MIN,
    ensures
        start@ == now@ - micros_into(now@, MICROS_PER_HOUR as int),
        start@ % (MICROS_PER_HOUR as int) == 0,
        start@ <= now@ < start@ + MICROS_PER_HOUR,
{
    let into = remainder_in(now, MICROS_PER_HOUR);
    proof {
        let n = now.micros as int;
        let u = MICROS_PER_HOUR as int;
        lemma_fundamental_div_mod(n, u);
        assert(n - n % u == (n / u) * u + 0) by (nonlinear_arith)
            requires
                n == u * (n / u) + n % u,
        ;
        lemma_fundamental_div_mod_converse_mod(n - n % u, u, n / u, 0);
    }
    Timestamp { micros: now.micros - into }
}

/// The time until the first midnight, in UTC, strictly after `now`, in
/// microseconds.
pub fn until_next_midnight(now: Timestamp) -> (wait: i64)
    ensures
        wait == next_midnight(now@) - now@,
        0 < wait <= MICROS_PER_DAY,
        (now@ + wait) % (MICROS_PER_DAY as int) == 0,
{
    let into = remainder_in(now, MICROS_PER_DAY);
    proof {
        let n = now.micros as int;
        let u = MICROS_PER_DAY as int;
        lemma_fundamental_div_mod(n, u);
        assert(n - n % u + u == (n / u + 1) * u + 0) by (nonlinear_arith)
            requires
                n == u * (n / u) + n % u,
        ;
        lemma_fundamental_div_mod_converse_mod(n - n % u + u, u, n / u + 1, 0);
    }
    MICROS_PER_DAY - into
}

impl Task {
    /// The time the task waits before its first run, in microseconds: the
    /// alert and ingestion tasks run at once, the hygiene task at the next
    /// midnight.
    pub fn wait_before_first_run(self, now: Timestamp) -> (wait: i64)
        ensures
            wait == match self {
                Task::Alert => 0,
                Task::Ingestion => 0,
                Task::Hygiene => next_midnight(now@) - now@,
            },
            0 <= wait <= MICROS_PER_DAY,
    {
        match self {
            Task::Alert => 0,
            Task::Ingestion => 0,
            Task::Hygiene => until_next_midnight(now),
        }
    }

    /// The time from `now`, at which a run of the task begins, to its next
    /// run, in microseconds: the fixed period of the alert and ingestion
    /// tasks, or the time until the next midnight. Whether a run fails changes
    /// nothing of it.
    pub fn wait_before_next_run(self, now: Timestamp) -> (wait: i64)
        ensures
            wait == wait_after_run(self, now@),
            0 < wait <= MICROS_PER_DAY,
    {
        match self {
            Task::Alert => 300_000_000,
            Task::Ingestion => 300_000_000,
            Task::Hygiene => until_next_midnight(now),
        }
    }
}

/// One run of the ingestion task on what the fetch gave: a fetched series is
/// written to the cache; a failed fetch leaves the cache as it was, and its
/// error is handed back to be logged.
pub fn ingest_activity(fetched: Result<ActivityData, AuroraWatchError>, cache: &mut ActivityCache) -> (r:
    Result<(), AuroraWatchError>)
    ensures
        match fetched {
            Ok(activity) => {
                &&& r is Ok
                &&& final(cache).samples() == upserted(old(cache).samples(), activity.points())
                &&& final(cache).fetched_at() == activity.fetched_at()
            },
            Err(e) => {
                &&& r == Err::<(), AuroraWatchError>(e)
                &&& final(cache).samples() == old(cache).samples()
                &&& final(cache).fetched_at() == old(cache).fetched_at()
            },
        },
{
    match fetched {
        Ok(activity) => {
            update_aurora_activity(activity, cache);
            Ok(())
        },
        Err(e) => Err(e),
    }
}

} // verus!
