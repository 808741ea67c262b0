use crate::time::{Timestamp, MICROS_PER_HOUR};
use std::collections::HashMap;
use vstd::prelude::*;

verus! {

broadcast use vstd::std_specs::hash::group_hash_axioms;

/// The number of hourly samples in every series.
pub const SERIES_LENGTH: usize = 24;

/// Whether `bits`, read as an IEEE 754 single-precision number, is not a
/// number: all exponent bits set and a fraction that is not zero.
pub open spec fn is_nan_bits(bits: u32) -> bool {
    (bits & 0x7fff_ffffu32) > 0x7f80_0000u32
}

/// The bits that are stored for a reading: those of `0.0` in place of a
/// reading that is not a number, and the reading itself otherwise.
pub open spec fn normalised_bits(bits: u32) -> u32 {
    if is_nan_bits(bits) {
        0u32
    } else {
        bits
    }
}

/// One hourly activity reading. The value is held as the bits of an IEEE 754
/// single-precision number, so `0` stands for `0.0`.
#[derive(Clone, Copy, Debug, PartialEq, Eq, Structural)]
pub struct ActivityDataPoint {
    pub timestamp: Timestamp,
    pub value_bits: u32,
}

impl ActivityDataPoint {
    /// A reading taken at `timestamp`. The feed writes a missing reading as
    /// "not a number": such a reading is stored as `0.0`.
    pub fn new(timestamp: Timestamp, raw_bits: u32) -> (point: ActivityDataPoint)
        ensures
            point.timestamp == timestamp,
            point.value_bits == normalised_bits(raw_bits),
            !is_nan_bits(point.value_bits),
    {
        assert(!is_nan_bits(0u32)) by (bit_vector);
        let value_bits: u32 = if (raw_bits & 0x7fff_ffffu32) > 0x7f80_0000u32 {
            0
        } else {
            raw_bits
        };
        ActivityDataPoint { timestamp, value_bits }
    }
}

/// Why a list of readings is no series.
#[derive(Clone, Copy, Debug, PartialEq, Eq, Structural)]
pub enum SeriesError {
    /// The list holds this many readings, not twenty-four.
    WrongLength(usize),
}

/// Twenty-four contiguous hours of activity readings, with the time at which
/// the feed they came from was last fetched.
#[derive(Debug)]
pub struct ActivityData {
    activities: Vec<ActivityDataPoint>,
    updated_at: Timestamp,
}

impl ActivityData {
    #[verifier::type_invariant]
    spec fn has_fixed_length(&self) -> bool {
        self.activities@.len() == SERIES_LENGTH
    }

    /// The readings, in the order in which they were handed in.
    pub closed spec fn points(&self) -> Seq<ActivityDataPoint> {
        self.activities@
    }

    /// When the feed behind the readings was last fetched.
    pub closed spec fn fetched_at(&self) -> Timestamp {
        self.updated_at
    }

    /// A series of the given readings, which must be twenty-four.
    pub fn new(activities: Vec<ActivityDataPoint>, updated_at: Timestamp) -> (r: Result<
        ActivityData,
        SeriesError,
    >)
        ensures
            match r {
                Ok(series) => {
                    &&& activities@.len() == SERIES_LENGTH
                    &&& series.points() == activities@
                    &&& series.fetched_at() == updated_at
                },
                Err(e) => {
                    &&& activities@.len() != SERIES_LENGTH
                    &&& e == SeriesError::WrongLength(activities.len())
                },
            },
    {
        if activities.len() == SERIES_LENGTH {
            Ok(ActivityData { activities, updated_at })
        } else {
            Err(SeriesError::WrongLength(activities.len()))
        }
    }

    /// The twenty-four readings.
    pub fn activities(&self) -> (points: &Vec<ActivityDataPoint>)
        ensures
            points@ == self.points(),
            points@.len() == SERIES_LENGTH,
    {
        proof {
            use_type_invariant(self);
        }
        &self.activities
    }

    /// When the feed behind the readings was last fetched.
    pub fn updated_at(&self) -> (at: Timestamp)
        ensures
            at == self.fetched_at(),
    {
        self.updated_at
    }
}

/// The stored readings after each of `points` was written in turn over
/// `stored`: a reading replaces the one stored for the same instant.
pub open spec fn upserted(stored: Map<i64, u32>, points: Seq<ActivityDataPoint>) -> Map<i64, u32>
    decreases points.len(),
{
    if points.len() == 0 {
        stored
    } else {
        upserted(stored, points.drop_last()).insert(
            points.last().timestamp.micros,
            points.last().value_bits,
        )
    }
}

/// The value of the last of `points` taken at the instant `micros`, if there
/// is one.
pub open spec fn latest_value(points: Seq<ActivityDataPoint>, micros: i64) -> Option<u32>
    decreases points.len(),
{
    if points.len() == 0 {
        None
    } else if points.last().timestamp.micros == micros {
        Some(points.last().value_bits)
    } else {
        latest_value(points.drop_last(), micros)
    }
}

/// The instant `hours_back` hours before `end`.
pub open spec fn hour_before(end: int, hours_back: int) -> int {
    end - hours_back * MICROS_PER_HOUR
}

/// The reading that a query ending at `end` gives for the hour `hours_back`
/// hours earlier: the stored one, or `0.0` where none is stored.
pub open spec fn window_point(stored: Map<i64, u32>, end: int, hours_back: int) -> ActivityDataPoint {
    let micros = hour_before(end, hours_back) as i64;
    ActivityDataPoint {
        timestamp: Timestamp { micros },
        value_bits: if stored.contains_key(micros) {
            stored[micros]
        } else {
            0u32
        },
    }
}

/// The twenty-four readings of the hours `end`, `end - 1h`, .., `end - 23h`,
/// the latest first.
pub open spec fn window(stored: Map<i64, u32>, end: int) -> Seq<ActivityDataPoint> {
    Seq::new(SERIES_LENGTH as nat, |i: int| window_point(stored, end, i))
}

/// After an upsert an instant holds the last value written for it, and
/// what was stored before where none was written.
pub proof fn upserted_holds_latest(stored: Map<i64, u32>, points: Seq<ActivityDataPoint>, micros: i64)
    ensures
        upserted(stored, points).contains_key(micros) <==> (stored.contains_key(micros)
            || latest_value(points, micros) is Some),
        latest_value(points, micros) matches Some(value) ==> upserted(stored, points)[micros]
            == value,
        latest_value(points, micros) is None && stored.contains_key(micros) ==> upserted(
            stored,
            points,
        )[micros] == stored[micros],
    decreases points.len(),
{
    if points.len() > 0 {
        upserted_holds_latest(stored, points.drop_last(), micros);
    }
}

/// Writing the same readings twice in a row leaves the store as writing them
/// once.
pub proof fn upsert_is_idempotent(stored: Map<i64, u32>, points: Seq<ActivityDataPoint>)
    ensures
        upserted(upserted(stored, points), points) == upserted(stored, points),
{
    let once = upserted(stored, points);
    let twice = upserted(once, points);
    assert forall|micros: i64| #[trigger]
        twice.contains_key(micros) == once.contains_key(micros) by {
        upserted_holds_latest(stored, points, micros);
        upserted_holds_latest(once, points, micros);
    }
    assert forall|micros: i64| once.contains_key(micros) implies #[trigger] twice[micros]
        == once[micros] by {
        upserted_holds_latest(stored, points, micros);
        upserted_holds_latest(once, points, micros);
    }
    assert(twice =~= once);
}

/// A query gives exactly twenty-four readings, whatever its end and whatever
/// is stored: nothing at all, some hours, or every hour of the window.
pub proof fn window_holds_twenty_four_readings(stored: Map<i64, u32>, end: int)
    ensures
        window(stored, end).len() == SERIES_LENGTH,
{
}

/// A query gives each hour of its window once, the latest first: the stored
/// value where the hour is stored, so that no stored value is replaced, and
/// `0.0` where it is not. This holds of every end whose window lies within
/// the instants that the machine can hold.
pub proof fn window_reads_each_hour_once(stored: Map<i64, u32>, end: i64)
    requires
        hour_before(end as int, 23) >= i64::MIN,
    ensures
        forall|i: int|
            0 <= i < 24 ==> (#[trigger] window(stored, end as int)[i]).timestamp@ == hour_before(
                end as int,
                i,
            ),
        forall|i: int, j: int|
            0 <= i < j < 24 ==> window(stored, end as int)[i].timestamp != window(
                stored,
                end as int,
            )[j].timestamp,
        forall|i: int|
            0 <= i < 24 && stored.contains_key(
                (#[trigger] window(stored, end as int)[i]).timestamp.micros,
            ) ==> window(stored, end as int)[i].value_bits == stored[window(
                stored,
                end as int,
            )[i].timestamp.micros],
        forall|i: int|
            0 <= i < 24 && !stored.contains_key(
                (#[trigger] window(stored, end as int)[i]).timestamp.micros,
            ) ==> window(stored, end as int)[i].value_bits == 0,
{
    assert forall|i: int| 0 <= i < 24 implies (#[trigger] window(stored, end as int)[i]).timestamp@
        == hour_before(end as int, i) by {
        assert(hour_before(end as int, 23) <= hour_before(end as int, i) <= end);
    }
}

/// Where every hour of the window but the last is stored, a query ending at
/// `end` gives `0.0` for `end`, in its first reading and in no other, and the
/// stored value for every other hour.
pub proof fn missing_latest_hour_reads_zero(stored: Map<i64, u32>, end: i64)
    requires
        hour_before(end as int, 23) >= i64::MIN,
        !stored.contains_key(end),
        forall|i: int| 1 <= i < 24 ==> stored.contains_key(#[trigger] hour_before(end as int, i) as i64),
    ensures
        window(stored, end as int).len() == 24,
        window(stored, end as int)[0].timestamp.micros == end,
        window(stored, end as int)[0].value_bits == 0,
        forall|i: int|
            1 <= i < 24 ==> (#[trigger] window(stored, end as int)[i]).value_bits
                == stored[hour_before(end as int, i) as i64],
        forall|i: int|
            1 <= i < 24 ==> (#[trigger] window(stored, end as int)[i]).timestamp.micros != end,
{
    assert(hour_before(end as int, 0) == end);
    window_reads_each_hour_once(stored, end);
}

/// The activity cache: at most one reading for each instant, and the time at
/// which the feed was last fetched successfully.
pub struct ActivityCache {
    samples: HashMap<i64, u32>,
    updated_at: Timestamp,
}

impl ActivityCache {
    /// The stored value bits, by instant in microseconds.
    pub closed spec fn samples(&self) -> Map<i64, u32> {
        self.samples@
    }

    /// When the feed was last fetched successfully.
    pub closed spec fn fetched_at(&self) -> Timestamp {
        self.updated_at
    }

    /// A cache that holds no reading yet.
    pub fn new(updated_at: Timestamp) -> (cache: ActivityCache)
        ensures
            cache.samples() == Map::<i64, u32>::empty(),
            cache.fetched_at() == updated_at,
    {
        ActivityCache { samples: HashMap::new(), updated_at }
    }

    /// Writes one reading under its instant, in place of what was stored for
    /// it.
    pub fn upsert(&mut self, point: ActivityDataPoint)
        ensures
            final(self).samples() == old(self).samples().insert(
                point.timestamp.micros,
                point.value_bits,
            ),
            final(self).fetched_at() == old(self).fetched_at(),
    {
        self.samples.insert(point.timestamp.micros, point.value_bits);
    }

    /// The value stored for `timestamp`, if there is one.
    pub fn get(&self, timestamp: Timestamp) -> (value: Option<u32>)
        ensures
            match value {
                Some(bits) => self.samples().contains_key(timestamp.micros) && self.samples()[timestamp.micros]
                    == bits,
                None => !self.samples().contains_key(timestamp.micros),
            },
    {
        match self.samples.get(&timestamp.micros) {
            Some(bits) => Some(*bits),
            None => None,
        }
    }
}

/// Store the latest aurora activity data: each reading is written under its
/// instant, replacing what was stored for it, and the time of the fetch is
/// recorded.
pub fn update_aurora_activity(activity: ActivityData, cache: &mut ActivityCache)
    ensures
        final(cache).samples() == upserted(old(cache).samples(), activity.points()),
        final(cache).fetched_at() == activity.fetched_at(),
{
    let points = activity.activities();
    let mut i: usize = 0;
    while i < points.len()
        invariant
            0 <= i <= points@.len(),
            points@ == activity.points(),
            cache.samples() == upserted(old(cache).samples(), points@.take(i as int)),
        decreases points@.len() - i,
    {
        cache.upsert(points[i]);
        proof {
            assert(points@.take(i + 1).drop_last() == points@.take(i as int));
        }
        i += 1;
    }
    proof {
        assert(points@.take(i as int) == points@);
    }
    cache.updated_at = activity.updated_at();
}

/// Retrieve the activity data for the 24 hours ending at `end`, the latest
/// hour first. An hour for which nothing is stored reads `0.0`.
pub fn get_activity_data(end: &Timestamp, cache: &ActivityCache) -> (series: ActivityData)
    requires
        hour_before(end@, 23) >= i64::MIN,
    ensures
        series.points() == window(cache.samples(), end@),
        series.points().len() == SERIES_LENGTH,
        series.fetched_at() == cache.fetched_at(),
{
    let mut activities: Vec<ActivityDataPoint> = Vec::new();
    let mut micros: i64 = end.micros;
    let mut i: usize = 0;
    while i < SERIES_LENGTH
        invariant
            0 <= i <= SERIES_LENGTH,
            hour_before(end@, 23) >= i64::MIN,
            i < SERIES_LENGTH ==> micros == hour_before(end@, i as int),
            activities@.len() == i,
            forall|j: int| 0 <= j < i ==> activities@[j] == window_point(cache.samples(), end@, j),
        decreases SERIES_LENGTH - i,
    {
        let timestamp = Timestamp { micros };
        let value_bits: u32 = match cache.get(timestamp) {
            Some(bits) => bits,
            None => 0,
        };
        activities.push(ActivityDataPoint { timestamp, value_bits });
        i += 1;
        if i < SERIES_LENGTH {
            micros = micros - MICROS_PER_HOUR;
        }
    }
    proof {
        assert(activities@ =~= window(cache.samples(), end@));
    }
    ActivityData { activities, updated_at: cache.updated_at }
}

} // verus!
