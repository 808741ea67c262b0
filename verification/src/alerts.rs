use crate::feed::CurrentAlertLevel;
use crate::level::AlertLevel;
use crate::time::{current_time, Timestamp};
use crate::users::{LocationUpdatedAt, UserWithLocations};
use vstd::prelude::*;

verus! {

/// A subscriber is not alerted again within two hours of the last alert.
pub const ALERT_COOLDOWN_MICROS: i64 = 7_200_000_000;

/// A weather report older than four minutes is fetched anew.
pub const WEATHER_STALENESS_MICROS: i64 = 240_000_000;

/// The alert level that is stored, with the time at which the feed last
/// changed it.
#[derive(Clone, Copy, Debug, PartialEq, Eq, Structural)]
pub struct AlertLevelModel {
    pub alert_level: AlertLevel,
    pub updated_at: Timestamp,
}

/// What one comparison of the stored level with the live one asks for.
#[derive(Clone, Copy, Debug, PartialEq, Eq, Structural)]
pub struct AlertDecision {
    /// The level to store in place of the stored one, if it is to change.
    pub update: Option<AlertLevelModel>,
    /// Whether weather reports are to be refreshed and subscribers alerted.
    pub escalate: bool,
}

/// Nothing has changed and there is nothing to warn about: the live level
/// carries the stored time, and the stored level is green.
pub open spec fn is_settled(stored: AlertLevelModel, live: CurrentAlertLevel) -> bool {
    stored.updated_at == live.updated_at && stored.alert_level == AlertLevel::Green
}

/// Whether the live level replaces the stored one: only where it is strictly
/// newer.
pub open spec fn is_newer(stored: AlertLevelModel, live: CurrentAlertLevel) -> bool {
    live.updated_at@ > stored.updated_at@
}

/// The stored level after one evaluation against `live`.
pub open spec fn next_stored(stored: AlertLevelModel, live: CurrentAlertLevel) -> AlertLevelModel {
    if is_newer(stored, live) {
        AlertLevelModel { alert_level: live.level, updated_at: live.updated_at }
    } else {
        stored
    }
}

/// Whether an evaluation goes on to refresh weather and alert subscribers:
/// unless all is settled, where the live level is yellow or above.
pub open spec fn must_escalate(stored: AlertLevelModel, live: CurrentAlertLevel) -> bool {
    !is_settled(stored, live) && live.level.rank() >= AlertLevel::Yellow.rank()
}

/// The stored level after an evaluation against each of `lives` in turn.
pub open spec fn stored_after(stored: AlertLevelModel, lives: Seq<CurrentAlertLevel>) -> AlertLevelModel
    decreases lives.len(),
{
    if lives.len() == 0 {
        stored
    } else {
        next_stored(stored_after(stored, lives.drop_last()), lives.last())
    }
}

/// The stored time never decreases: whatever live levels are evaluated and in
/// whatever order they arrive, after any number of them the stored time is at
/// least what it was after fewer, and at least what it was at the start.
pub proof fn stored_time_never_decreases(
    stored: AlertLevelModel,
    lives: Seq<CurrentAlertLevel>,
    fewer: int,
    more: int,
)
    requires
        0 <= fewer <= more <= lives.len(),
    ensures
        stored_after(stored, lives.take(fewer)).updated_at@ <= stored_after(
            stored,
            lives.take(more),
        ).updated_at@,
        stored.updated_at@ <= stored_after(stored, lives.take(more)).updated_at@,
    decreases more,
{
    if more == 0 {
        assert(lives.take(0).len() == 0);
    } else {
        assert(lives.take(more).drop_last() == lives.take(more - 1));
        if fewer < more {
            stored_time_never_decreases(stored, lives, fewer, more - 1);
        } else {
            stored_time_never_decreases(stored, lives, more - 1, more - 1);
        }
    }
}

/// After any evaluations the stored time is the latest of the times seen: no
/// live level that was evaluated is newer than what is stored, and what is
/// stored is the level stored at the start or one of those evaluated, with
/// its own time.
pub proof fn stored_time_is_the_latest(stored: AlertLevelModel, lives: Seq<CurrentAlertLevel>)
    ensures
        forall|i: int|
            0 <= i < lives.len() ==> (#[trigger] lives[i]).updated_at@ <= stored_after(
                stored,
                lives,
            ).updated_at@,
        stored_after(stored, lives) == stored || exists|i: int|
            0 <= i < lives.len() && stored_after(stored, lives) == (AlertLevelModel {
                alert_level: (#[trigger] lives[i]).level,
                updated_at: lives[i].updated_at,
            }),
    decreases lives.len(),
{
    if lives.len() > 0 {
        let shorter = lives.drop_last();
        stored_time_is_the_latest(stored, shorter);
        assert forall|i: int| 0 <= i < lives.len() implies (#[trigger] lives[i]).updated_at@
            <= stored_after(stored, lives).updated_at@ by {
            if i < shorter.len() {
                assert(shorter[i] == lives[i]);
            }
        }
        if stored_after(stored, lives) != stored {
            if is_newer(stored_after(stored, shorter), lives.last()) {
                assert(stored_after(stored, lives) == (AlertLevelModel {
                    alert_level: lives[lives.len() - 1].level,
                    updated_at: lives[lives.len() - 1].updated_at,
                }));
            } else {
                let i = choose|i: int|
                    0 <= i < shorter.len() && stored_after(stored, shorter) == (AlertLevelModel {
                        alert_level: (#[trigger] shorter[i]).level,
                        updated_at: shorter[i].updated_at,
                    });
                assert(shorter[i] == lives[i]);
            }
        }
    }
}

/// Whether a place's weather report is older than the staleness window at
/// `now`.
pub open spec fn weather_is_stale(location: LocationUpdatedAt, now: Timestamp) -> bool {
    location.updated_at@ < now@ - WEATHER_STALENESS_MICROS
}

/// The ids of the places among `locations` whose weather report is stale at
/// `now`, in the order of `locations`.
pub open spec fn stale_locations(locations: Seq<LocationUpdatedAt>, now: Timestamp) -> Seq<i32>
    decreases locations.len(),
{
    if locations.len() == 0 {
        Seq::empty()
    } else if weather_is_stale(locations.last(), now) {
        stale_locations(locations.drop_last(), now).push(locations.last().location_id)
    } else {
        stale_locations(locations.drop_last(), now)
    }
}

/// Whether a subscriber is due an alert at `now`: the level has reached the
/// subscriber's threshold, and the subscriber was never alerted, or more than
/// the cooldown ago.
pub open spec fn alert_is_due(
    alert_threshold: AlertLevel,
    last_alerted_at: Option<Timestamp>,
    alert_level: AlertLevel,
    now: Timestamp,
) -> bool {
    &&& alert_threshold.rank() <= alert_level.rank()
    &&& match last_alerted_at {
        None => true,
        Some(last) => last@ < now@ - ALERT_COOLDOWN_MICROS,
    }
}

/// Machine indices as mathematical integers.
pub open spec fn indices(list: Seq<usize>) -> Seq<int> {
    Seq::new(list.len(), |k: int| list[k] as int)
}

/// The indices of the subscribers among `users` that are due an alert at
/// `now`, in the order of `users`.
pub open spec fn users_due(users: Seq<UserWithLocations>, alert_level: AlertLevel, now: Timestamp) -> Seq<
    int,
>
    decreases users.len(),
{
    if users.len() == 0 {
        Seq::empty()
    } else if alert_is_due(
        users.last().alert_threshold,
        users.last().last_alerted_at,
        alert_level,
        now,
    ) {
        users_due(users.drop_last(), alert_level, now).push(users.len() - 1)
    } else {
        users_due(users.drop_last(), alert_level, now)
    }
}

/// The subscribers that are due an alert, and no others, are listed, each
/// once and in the order of `users`.
pub proof fn users_due_lists_each_once(
    users: Seq<UserWithLocations>,
    alert_level: AlertLevel,
    now: Timestamp,
)
    ensures
        forall|k: int|
            0 <= k < users_due(users, alert_level, now).len() ==> {
                let index = #[trigger] users_due(users, alert_level, now)[k];
                &&& 0 <= index < users.len()
                &&& alert_is_due(
                    users[index].alert_threshold,
                    users[index].last_alerted_at,
                    alert_level,
                    now,
                )
            },
        forall|j: int, k: int|
            0 <= j < k < users_due(users, alert_level, now).len() ==> users_due(
                users,
                alert_level,
                now,
            )[j] < users_due(users, alert_level, now)[k],
        forall|i: int|
            0 <= i < users.len() && alert_is_due(
                users[i].alert_threshold,
                users[i].last_alerted_at,
                alert_level,
                now,
            ) ==> users_due(users, alert_level, now).contains(i),
    decreases users.len(),
{
    if users.len() > 0 {
        let shorter = users.drop_last();
        let due = users_due(users, alert_level, now);
        let before = users_due(shorter, alert_level, now);
        users_due_lists_each_once(shorter, alert_level, now);
        assert forall|k: int| 0 <= k < before.len() implies 0 <= (#[trigger] before[k])
            < shorter.len() && shorter[before[k]] == users[before[k]] by {}
        assert forall|i: int|
            0 <= i < users.len() && alert_is_due(
                users[i].alert_threshold,
                users[i].last_alerted_at,
                alert_level,
                now,
            ) implies due.contains(i) by {
            if i < shorter.len() {
                assert(shorter[i] == users[i]);
                assert(before.contains(i));
                let k = choose|k: int| 0 <= k < before.len() && before[k] == i;
                assert(due[k] == i);
            } else {
                assert(due[due.len() - 1] == i);
            }
        }
    }
}

/// The ids of the places whose weather is stale, and no others, are listed,
/// in the order of `locations`: each listed id is that of a stale place, and
/// every stale place has its id listed.
pub proof fn stale_locations_lists_the_stale(locations: Seq<LocationUpdatedAt>, now: Timestamp)
    ensures
        stale_locations(locations, now).len() <= locations.len(),
        forall|k: int|
            0 <= k < stale_locations(locations, now).len() ==> exists|i: int|
                0 <= i < locations.len() && weather_is_stale(locations[i], now)
                    && locations[i].location_id == #[trigger] stale_locations(locations, now)[k],
        forall|i: int|
            0 <= i < locations.len() && weather_is_stale(#[trigger] locations[i], now)
                ==> stale_locations(locations, now).contains(locations[i].location_id),
        (forall|i: int| 0 <= i < locations.len() ==> !weather_is_stale(locations[i], now))
            ==> stale_locations(locations, now).len() == 0,
    decreases locations.len(),
{
    if locations.len() > 0 {
        let shorter = locations.drop_last();
        let ids = stale_locations(locations, now);
        let before = stale_locations(shorter, now);
        stale_locations_lists_the_stale(shorter, now);
        assert forall|k: int| 0 <= k < ids.len() implies exists|i: int|
            0 <= i < locations.len() && weather_is_stale(locations[i], now)
                && locations[i].location_id == #[trigger] ids[k] by {
            if k < before.len() {
                let i = choose|i: int|
                    0 <= i < shorter.len() && weather_is_stale(shorter[i], now)
                        && shorter[i].location_id == before[k];
                assert(locations[i] == shorter[i]);
            } else {
                assert(locations[locations.len() - 1].location_id == ids[k]);
            }
        }
        assert forall|i: int|
            0 <= i < locations.len() && weather_is_stale(#[trigger] locations[i], now) implies ids.contains(
            locations[i].location_id,
        ) by {
            if i < shorter.len() {
                assert(shorter[i] == locations[i]);
                let k = choose|k: int| 0 <= k < before.len() && before[k] == shorter[i].location_id;
                assert(ids[k] == locations[i].location_id);
            } else {
                assert(ids[ids.len() - 1] == locations[i].location_id);
            }
        }
        if forall|i: int| 0 <= i < locations.len() ==> !weather_is_stale(locations[i], now) {
            assert forall|i: int| 0 <= i < shorter.len() implies !weather_is_stale(
                shorter[i],
                now,
            ) by {
                assert(shorter[i] == locations[i]);
            }
        }
    }
}

/// Compares the stored alert level with the live one, and says whether the
/// stored one is to be replaced and whether the evaluation goes on.
pub fn compare_alert_levels(stored: &AlertLevelModel, live: &CurrentAlertLevel) -> (decision:
    AlertDecision)
    ensures
        decision.update == (if is_newer(*stored, *live) {
            Some(next_stored(*stored, *live))
        } else {
            None
        }),
        decision.escalate == must_escalate(*stored, *live),
        is_settled(*stored, *live) ==> decision.update is None && !decision.escalate,
{
    if stored.updated_at == live.updated_at && stored.alert_level == AlertLevel::Green {
        return AlertDecision { update: None, escalate: false };
    }
    let update = if live.updated_at.is_after(&stored.updated_at) {
        Some(AlertLevelModel { alert_level: live.level, updated_at: live.updated_at })
    } else {
        None
    };
    AlertDecision { update, escalate: live.level.at_least(AlertLevel::Yellow) }
}

/// Whether the weather report of `location` is to be fetched anew at `now`.
pub fn needs_fresh_weather(location: &LocationUpdatedAt, now: Timestamp) -> (stale: bool)
    ensures
        stale == weather_is_stale(*location, now),
{
    location.updated_at.is_older_than(WEATHER_STALENESS_MICROS, &now)
}

/// The ids of the places whose weather report is to be fetched anew at `now`.
pub fn locations_to_refresh(locations: &Vec<LocationUpdatedAt>, now: Timestamp) -> (ids: Vec<i32>)
    ensures
        ids@ == stale_locations(locations@, now),
{
    let mut ids: Vec<i32> = Vec::new();
    let mut i: usize = 0;
    while i < locations.len()
        invariant
            0 <= i <= locations@.len(),
            ids@ == stale_locations(locations@.take(i as int), now),
        decreases locations@.len() - i,
    {
        proof {
            assert(locations@.take(i + 1).drop_last() == locations@.take(i as int));
        }
        if needs_fresh_weather(&locations[i], now) {
            ids.push(locations[i].location_id);
        }
        i += 1;
    }
    proof {
        assert(locations@.take(i as int) == locations@);
    }
    ids
}

/// Whether `user` is due an alert for `alert_level` at `now`.
pub fn should_alert_user_at(user: &UserWithLocations, alert_level: &AlertLevel, now: Timestamp) -> (due:
    bool)
    ensures
        due == alert_is_due(user.alert_threshold, user.last_alerted_at, *alert_level, now),
{
    if alert_level.at_least(user.alert_threshold) {
        match user.last_alerted_at {
            None => true,
            Some(last) => last.is_older_than(ALERT_COOLDOWN_MICROS, &now),
        }
    } else {
        false
    }
}

/// Whether `user` is due an alert for `alert_level` now, by the clock.
pub fn should_alert_user(user: &UserWithLocations, alert_level: &AlertLevel) -> (due: bool)
    ensures
        exists|now: Timestamp|
            due == #[trigger] alert_is_due(
                user.alert_threshold,
                user.last_alerted_at,
                *alert_level,
                now,
            ),
        user.alert_threshold.rank() > alert_level.rank() ==> !due,
        user.alert_threshold.rank() <= alert_level.rank() && user.last_alerted_at is None ==> due,
{
    let now = current_time();
    should_alert_user_at(user, alert_level, now)
}

/// The indices of the subscribers that are due an alert for `alert_level` at
/// `now`.
pub fn users_to_alert(users: &Vec<UserWithLocations>, alert_level: &AlertLevel, now: Timestamp) -> (due:
    Vec<usize>)
    ensures
        indices(due@) == users_due(users@, *alert_level, now),
{
    let mut due: Vec<usize> = Vec::new();
    let mut i: usize = 0;
    while i < users.len()
        invariant
            0 <= i <= users@.len(),
            indices(due@) == users_due(users@.take(i as int), *alert_level, now),
        decreases users@.len() - i,
    {
        proof {
            assert(users@.take(i + 1).drop_last() == users@.take(i as int));
        }
        if should_alert_user_at(&users[i], alert_level, now) {
            proof {
                assert(indices(due@.push(i)) == indices(due@).push(i as int));
            }
            due.push(i);
        }
        i += 1;
    }
    proof {
        assert(users@.take(i as int) == users@);
    }
    due
}

impl UserWithLocations {
    /// Records that the subscriber was alerted at `now`.
    pub fn record_alert(&mut self, now: Timestamp)
        ensures
            final(self).last_alerted_at == Some(now),
            final(self).user_id == old(self).user_id,
            final(self).email == old(self).email,
            final(self).alert_threshold == old(self).alert_threshold,
            final(self).locations == old(self).locations,
    {
        self.last_alerted_at = Some(now);
    }
}

/// A subscriber who was alerted is not due another alert until more than the
/// cooldown has passed, whatever the level.
pub proof fn no_alert_within_cooldown(
    alert_threshold: AlertLevel,
    alerted_at: Timestamp,
    alert_level: AlertLevel,
    now: Timestamp,
)
    requires
        now@ - alerted_at@ <= ALERT_COOLDOWN_MICROS,
    ensures
        !alert_is_due(alert_threshold, Some(alerted_at), alert_level, now),
{
}

/// A subscriber whose threshold the level has reached is due an alert once
/// more than the cooldown has passed since the last one.
pub proof fn alert_after_cooldown(
    alert_threshold: AlertLevel,
    alerted_at: Timestamp,
    alert_level: AlertLevel,
    now: Timestamp,
)
    requires
        alert_threshold.rank() <= alert_level.rank(),
        now@ - alerted_at@ > ALERT_COOLDOWN_MICROS,
    ensures
        alert_is_due(alert_threshold, Some(alerted_at), alert_level, now),
{
}

/// Everything that one evaluation asks for, given what the store held when
/// it began.
#[derive(Debug)]
pub struct AlertPlan {
    /// The level to store, if the stored one is to change.
    pub update: Option<AlertLevelModel>,
    /// The ids of the places whose weather report is to be fetched anew.
    pub refresh: Vec<i32>,
    /// The indices of the subscribers to alert.
    pub notify: Vec<usize>,
}

/// One whole evaluation over what the store holds: the stored level is
/// replaced where the live one is newer; where the evaluation escalates,
/// every stale weather report is refreshed and every subscriber that is due
/// an alert gets one; otherwise nothing is fetched and nobody is alerted.
pub fn plan_alerts(
    stored: &AlertLevelModel,
    live: &CurrentAlertLevel,
    locations: &Vec<LocationUpdatedAt>,
    verified_users: &Vec<UserWithLocations>,
    now: Timestamp,
) -> (plan: AlertPlan)
    ensures
        plan.update == (if is_newer(*stored, *live) {
            Some(next_stored(*stored, *live))
        } else {
            None
        }),
        plan.refresh@ == (if must_escalate(*stored, *live) {
            stale_locations(locations@, now)
        } else {
            Seq::empty()
        }),
        indices(plan.notify@) == (if must_escalate(*stored, *live) {
            users_due(verified_users@, live.level, now)
        } else {
            Seq::empty()
        }),
{
    let decision = compare_alert_levels(stored, live);
    if decision.escalate {
        AlertPlan {
            update: decision.update,
            refresh: locations_to_refresh(locations, now),
            notify: users_to_alert(verified_users, &live.level, now),
        }
    } else {
        let notify: Vec<usize> = Vec::new();
        proof {
            assert(indices(notify@) == Seq::<int>::empty());
        }
        AlertPlan { update: decision.update, refresh: Vec::new(), notify }
    }
}

/// The subscriber as they are once alerted at `now`: the time of the last
/// alert is `now`, and nothing else has changed.
pub open spec fn alerted(user: UserWithLocations, now: Timestamp) -> UserWithLocations {
    UserWithLocations {
        user_id: user.user_id,
        email: user.email,
        alert_threshold: user.alert_threshold,
        last_alerted_at: Some(now),
        locations: user.locations,
    }
}

impl AlertPlan {
    /// Carries the plan out on what the store holds: the stored level is
    /// replaced where the plan says so, and each subscriber that the plan
    /// lists is recorded as alerted at `now`. Every other subscriber is left
    /// as they were.
    pub fn apply(
        &self,
        stored: &mut AlertLevelModel,
        verified_users: &mut Vec<UserWithLocations>,
        now: Timestamp,
    )
        requires
            forall|k: int|
                0 <= k < self.notify@.len() ==> self.notify@[k] < old(verified_users)@.len(),
        ensures
            *final(stored) == (match self.update {
                Some(update) => update,
                None => *old(stored),
            }),
            final(verified_users)@.len() == old(verified_users)@.len(),
            forall|i: int|
                0 <= i < old(verified_users)@.len() ==> #[trigger] final(verified_users)@[i] == (
                if indices(self.notify@).contains(i) {
                    alerted(old(verified_users)@[i], now)
                } else {
                    old(verified_users)@[i]
                }),
    {
        if let Some(update) = self.update {
            *stored = update;
        }
        let ghost before = verified_users@;
        let mut k: usize = 0;
        while k < self.notify.len()
            invariant
                0 <= k <= self.notify@.len(),
                verified_users@.len() == before.len(),
                forall|j: int| 0 <= j < self.notify@.len() ==> self.notify@[j] < before.len(),
                forall|i: int|
                    0 <= i < before.len() ==> #[trigger] verified_users@[i] == (if exists|j: int|
                        0 <= j < k && self.notify@[j] == i {
                        alerted(before[i], now)
                    } else {
                        before[i]
                    }),
            decreases self.notify@.len() - k,
        {
            let index = self.notify[k];
            let ghost earlier = verified_users@;
            verified_users[index].record_alert(now);
            proof {
                assert forall|i: int| 0 <= i < before.len() implies #[trigger] verified_users@[i] == (
                if exists|j: int| 0 <= j < k + 1 && self.notify@[j] == i {
                    alerted(before[i], now)
                } else {
                    before[i]
                }) by {
                    if i == index {
                        assert(self.notify@[k as int] == i);
                        assert(verified_users@[i] == alerted(earlier[i], now));
                    } else {
                        assert(verified_users@[i] == earlier[i]);
                        if exists|j: int| 0 <= j < k + 1 && self.notify@[j] == i {
                            let j = choose|j: int| 0 <= j < k + 1 && self.notify@[j] == i;
                            assert(j < k);
                        }
                    }
                }
            }
            k += 1;
        }
        proof {
            assert forall|i: int| 0 <= i < before.len() implies #[trigger] verified_users@[i] == (
            if indices(self.notify@).contains(i) {
                alerted(before[i], now)
            } else {
                before[i]
            }) by {
                if indices(self.notify@).contains(i) {
                    let j = choose|j: int|
                        0 <= j < indices(self.notify@).len() && indices(self.notify@)[j] == i;
                    assert(self.notify@[j] == i);
                } else if exists|j: int| 0 <= j < k && self.notify@[j] == i {
                    let j = choose|j: int| 0 <= j < k && self.notify@[j] == i;
                    assert(indices(self.notify@)[j] == i);
                }
            }
        }
    }
}

/// One whole evaluation, carried out on what the store holds at `now`, the
/// time of the evaluation. The stored level becomes the live one where that
/// is newer, and otherwise stays. Where the evaluation escalates, the ids of
/// the places with a stale weather report are handed back to be refreshed,
/// and every subscriber that is due an alert is recorded as alerted at `now`;
/// every other subscriber, and everyone where it does not escalate, is left
/// as they were.
pub fn maybe_alert(
    stored: &mut AlertLevelModel,
    live: &CurrentAlertLevel,
    locations: &Vec<LocationUpdatedAt>,
    verified_users: &mut Vec<UserWithLocations>,
    now: Timestamp,
) -> (refresh: Vec<i32>)
    ensures
        *final(stored) == next_stored(*old(stored), *live),
        refresh@ == (if must_escalate(*old(stored), *live) {
            stale_locations(locations@, now)
        } else {
            Seq::empty()
        }),
        final(verified_users)@.len() == old(verified_users)@.len(),
        forall|i: int|
            0 <= i < old(verified_users)@.len() ==> #[trigger] final(verified_users)@[i] == (
            if must_escalate(*old(stored), *live) && alert_is_due(
                old(verified_users)@[i].alert_threshold,
                old(verified_users)@[i].last_alerted_at,
                live.level,
                now,
            ) {
                alerted(old(verified_users)@[i], now)
            } else {
                old(verified_users)@[i]
            }),
{
    let plan = plan_alerts(stored, live, locations, verified_users, now);
    proof {
        users_due_lists_each_once(verified_users@, live.level, now);
        assert forall|k: int| 0 <= k < plan.notify@.len() implies plan.notify@[k]
            < verified_users@.len() by {
            assert(indices(plan.notify@).len() == plan.notify@.len());
            assert(indices(plan.notify@)[k] == plan.notify@[k]);
            let due = users_due(verified_users@, live.level, now);
            assert(indices(plan.notify@) == due);
            assert(0 <= due[k] < verified_users@.len());
        }
    }
    plan.apply(stored, verified_users, now);
    plan.refresh
}

/// Where nothing has changed and the stored level is green, an evaluation
/// writes nothing, fetches no weather and alerts nobody.
pub proof fn settled_evaluation_does_nothing(stored: AlertLevelModel, live: CurrentAlertLevel)
    requires
        is_settled(stored, live),
    ensures
        !is_newer(stored, live),
        next_stored(stored, live) == stored,
        !must_escalate(stored, live),
{
}

} // verus!
