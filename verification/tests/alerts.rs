use aurora_alert::alerts::{
    compare_alert_levels, locations_to_refresh, maybe_alert, needs_fresh_weather, plan_alerts, should_alert_user,
    should_alert_user_at, users_to_alert, AlertDecision, AlertLevelModel, ALERT_COOLDOWN_MICROS,
    WEATHER_STALENESS_MICROS,
};
use aurora_alert::feed::CurrentAlertLevel;
use aurora_alert::level::AlertLevel;
use aurora_alert::time::Timestamp;
use aurora_alert::users::{LocationUpdatedAt, UserWithLocations};

const SECOND: i64 = 1_000_000;
const MINUTE: i64 = 60 * SECOND;
const HOUR: i64 = 60 * MINUTE;
const T0: i64 = 1_649_163_600_000_000;
const NOW: i64 = T0 + 10 * HOUR;

fn stored(level: AlertLevel, at: i64) -> AlertLevelModel {
    AlertLevelModel { alert_level: level, updated_at: Timestamp::new(at) }
}

fn live(level: AlertLevel, at: i64) -> CurrentAlertLevel {
    CurrentAlertLevel { level, updated_at: Timestamp::new(at), site_id: "site:AWN:SUM".to_string() }
}

fn user(id: u128, threshold: AlertLevel, last_alerted_at: Option<i64>) -> UserWithLocations {
    UserWithLocations {
        user_id: id,
        email: format!("user{}@example.org", id),
        alert_threshold: threshold,
        last_alerted_at: last_alerted_at.map(Timestamp::new),
        locations: Vec::new(),
    }
}

fn location(id: i32, updated_at: i64) -> LocationUpdatedAt {
    LocationUpdatedAt { location_id: id, updated_at: Timestamp::new(updated_at) }
}

#[test]
fn unchanged_green_does_nothing() {
    let decision = compare_alert_levels(&stored(AlertLevel::Green, T0), &live(AlertLevel::Green, T0));
    assert_eq!(decision, AlertDecision { update: None, escalate: false });
    let locations = vec![location(1, 0)];
    let users = vec![user(1, AlertLevel::Green, None)];
    let plan = plan_alerts(
        &stored(AlertLevel::Green, T0),
        &live(AlertLevel::Green, T0),
        &locations,
        &users,
        Timestamp::new(NOW),
    );
    assert_eq!(plan.update, None);
    assert!(plan.refresh.is_empty());
    assert!(plan.notify.is_empty());
}

#[test]
fn unchanged_time_with_green_stored_skips_even_a_red_live_level() {
    let decision = compare_alert_levels(&stored(AlertLevel::Green, T0), &live(AlertLevel::Red, T0));
    assert_eq!(decision, AlertDecision { update: None, escalate: false });
}

#[test]
fn newer_yellow_is_stored_and_escalates() {
    let decision =
        compare_alert_levels(&stored(AlertLevel::Green, T0), &live(AlertLevel::Yellow, T0 + 1));
    assert_eq!(decision.update, Some(stored(AlertLevel::Yellow, T0 + 1)));
    assert!(decision.escalate);
}

#[test]
fn whole_evaluation_of_a_newer_yellow() {
    let now = Timestamp::new(NOW);
    let locations = vec![
        location(10, NOW - 5 * MINUTE),
        location(11, NOW - 3 * MINUTE),
        location(12, NOW - 4 * MINUTE),
        location(13, NOW - 4 * MINUTE - 1),
        location(14, NOW + MINUTE),
    ];
    let mut users = vec![
        user(1, AlertLevel::Green, None),
        user(2, AlertLevel::Yellow, Some(NOW - 3 * HOUR)),
        user(3, AlertLevel::Yellow, Some(NOW - HOUR)),
        user(4, AlertLevel::Amber, None),
        user(5, AlertLevel::Red, Some(NOW - 30 * HOUR)),
        user(6, AlertLevel::Yellow, None),
    ];
    let plan = plan_alerts(
        &stored(AlertLevel::Green, T0),
        &live(AlertLevel::Yellow, T0 + HOUR),
        &locations,
        &users,
        now,
    );
    assert_eq!(plan.update, Some(stored(AlertLevel::Yellow, T0 + HOUR)));
    assert_eq!(plan.refresh, vec![10, 13]);
    assert_eq!(plan.notify, vec![0, 1, 5]);
    for index in &plan.notify {
        users[*index].record_alert(now);
    }
    for (index, subscriber) in users.iter().enumerate() {
        if plan.notify.contains(&index) {
            assert_eq!(subscriber.last_alerted_at, Some(now));
        } else {
            assert_ne!(subscriber.last_alerted_at, Some(now));
        }
    }
    // Nobody is alerted twice: a second evaluation at the same time alerts nobody.
    let again = plan_alerts(
        &stored(AlertLevel::Yellow, T0 + HOUR),
        &live(AlertLevel::Yellow, T0 + HOUR),
        &locations,
        &users,
        now,
    );
    assert_eq!(again.update, None);
    assert!(again.notify.is_empty());
    assert_eq!(again.refresh, vec![10, 13]);
}

#[test]
fn older_live_level_never_replaces_the_stored_one() {
    let decision = compare_alert_levels(&stored(AlertLevel::Amber, T0), &live(AlertLevel::Red, T0 - 1));
    assert_eq!(decision.update, None);
    assert!(decision.escalate);
    let decision =
        compare_alert_levels(&stored(AlertLevel::Amber, T0), &live(AlertLevel::Green, T0 - 1));
    assert_eq!(decision, AlertDecision { update: None, escalate: false });
}

#[test]
fn unchanged_yellow_is_evaluated_again() {
    let decision =
        compare_alert_levels(&stored(AlertLevel::Yellow, T0), &live(AlertLevel::Yellow, T0));
    assert_eq!(decision, AlertDecision { update: None, escalate: true });
}

#[test]
fn newer_green_is_stored_without_escalation() {
    let decision = compare_alert_levels(&stored(AlertLevel::Red, T0), &live(AlertLevel::Green, T0 + 1));
    assert_eq!(decision.update, Some(stored(AlertLevel::Green, T0 + 1)));
    assert!(!decision.escalate);
}

#[test]
fn stored_time_never_goes_back() {
    let arrivals = [
        (AlertLevel::Yellow, T0 + 5),
        (AlertLevel::Green, T0 + 2),
        (AlertLevel::Red, T0 + 9),
        (AlertLevel::Amber, T0 + 9),
        (AlertLevel::Green, T0 - 100),
        (AlertLevel::Green, T0 + 10),
        (AlertLevel::Red, T0 + 3),
    ];
    let mut current = stored(AlertLevel::Green, T0);
    let mut seen = vec![current.updated_at.micros];
    for (level, at) in arrivals {
        if let Some(update) = compare_alert_levels(&current, &live(level, at)).update {
            current = update;
        }
        assert!(current.updated_at.micros >= *seen.last().unwrap());
        seen.push(current.updated_at.micros);
    }
    assert_eq!(seen, vec![T0, T0 + 5, T0 + 5, T0 + 9, T0 + 9, T0 + 9, T0 + 10, T0 + 10]);
    assert_eq!(current, stored(AlertLevel::Green, T0 + 10));
}

#[test]
fn cooldown_blocks_an_alert_after_one_hour_and_not_after_three() {
    let now = Timestamp::new(NOW);
    for level in [AlertLevel::Yellow, AlertLevel::Amber, AlertLevel::Red] {
        let recent = user(1, AlertLevel::Yellow, Some(NOW - HOUR));
        assert!(!should_alert_user_at(&recent, &level, now));
        let earlier = user(1, AlertLevel::Yellow, Some(NOW - 3 * HOUR));
        assert!(should_alert_user_at(&earlier, &level, now));
    }
}

#[test]
fn cooldown_ends_after_exactly_two_hours() {
    let now = Timestamp::new(NOW);
    assert_eq!(ALERT_COOLDOWN_MICROS, 2 * HOUR);
    let at_the_limit = user(1, AlertLevel::Yellow, Some(NOW - 2 * HOUR));
    assert!(!should_alert_user_at(&at_the_limit, &AlertLevel::Yellow, now));
    let just_over = user(1, AlertLevel::Yellow, Some(NOW - 2 * HOUR - 1));
    assert!(should_alert_user_at(&just_over, &AlertLevel::Yellow, now));
}

#[test]
fn threshold_above_the_level_is_never_alerted() {
    let now = Timestamp::new(NOW);
    assert!(!should_alert_user_at(&user(1, AlertLevel::Amber, None), &AlertLevel::Yellow, now));
    assert!(!should_alert_user_at(&user(1, AlertLevel::Red, None), &AlertLevel::Amber, now));
    assert!(should_alert_user_at(&user(1, AlertLevel::Red, None), &AlertLevel::Red, now));
    assert!(should_alert_user_at(&user(1, AlertLevel::Green, None), &AlertLevel::Green, now));
}

#[test]
fn alert_by_the_clock() {
    let now = chrono::Utc::now().timestamp_micros();
    assert!(should_alert_user(&user(1, AlertLevel::Yellow, None), &AlertLevel::Amber));
    assert!(!should_alert_user(&user(1, AlertLevel::Red, None), &AlertLevel::Amber));
    assert!(should_alert_user(&user(1, AlertLevel::Yellow, Some(now - 3 * HOUR)), &AlertLevel::Amber));
    assert!(!should_alert_user(&user(1, AlertLevel::Yellow, Some(now - HOUR)), &AlertLevel::Amber));
    assert!(!should_alert_user(&user(1, AlertLevel::Yellow, Some(now + HOUR)), &AlertLevel::Amber));
}

#[test]
fn extreme_times_do_not_overflow() {
    let earliest = Timestamp::new(i64::MIN);
    let latest = Timestamp::new(i64::MAX);
    assert!(!should_alert_user_at(&user(1, AlertLevel::Green, Some(i64::MIN)), &AlertLevel::Red, earliest));
    assert!(should_alert_user_at(&user(1, AlertLevel::Green, Some(i64::MIN)), &AlertLevel::Red, latest));
    assert!(!should_alert_user_at(&user(1, AlertLevel::Green, Some(i64::MAX)), &AlertLevel::Red, latest));
    assert!(!needs_fresh_weather(&location(1, i64::MIN), earliest));
    assert!(needs_fresh_weather(&location(1, i64::MIN), latest));
}

#[test]
fn weather_is_stale_after_four_minutes() {
    let now = Timestamp::new(NOW);
    assert_eq!(WEATHER_STALENESS_MICROS, 4 * MINUTE);
    assert!(!needs_fresh_weather(&location(1, NOW), now));
    assert!(!needs_fresh_weather(&location(1, NOW - 4 * MINUTE), now));
    assert!(needs_fresh_weather(&location(1, NOW - 4 * MINUTE - 1), now));
    let locations = vec![location(3, 0), location(1, NOW), location(2, 0), location(3, 0)];
    assert_eq!(locations_to_refresh(&locations, now), vec![3, 2, 3]);
    assert_eq!(locations_to_refresh(&Vec::new(), now), Vec::<i32>::new());
}

#[test]
fn users_due_are_listed_in_order() {
    let now = Timestamp::new(NOW);
    let users = vec![
        user(1, AlertLevel::Red, None),
        user(2, AlertLevel::Amber, None),
        user(3, AlertLevel::Green, Some(NOW)),
        user(4, AlertLevel::Green, Some(0)),
    ];
    assert_eq!(users_to_alert(&users, &AlertLevel::Amber, now), vec![1, 3]);
    assert_eq!(users_to_alert(&users, &AlertLevel::Red, now), vec![0, 1, 3]);
    assert_eq!(users_to_alert(&users, &AlertLevel::Green, now), vec![3]);
}

fn subscribers() -> Vec<UserWithLocations> {
    vec![
        user(1, AlertLevel::Green, None),
        user(2, AlertLevel::Yellow, Some(NOW - 3 * HOUR)),
        user(3, AlertLevel::Yellow, Some(NOW - HOUR)),
        user(4, AlertLevel::Amber, None),
        user(5, AlertLevel::Red, Some(NOW - 30 * HOUR)),
        user(6, AlertLevel::Yellow, None),
    ]
}

fn alert_times(users: &[UserWithLocations]) -> Vec<Option<i64>> {
    users.iter().map(|u| u.last_alerted_at.map(|at| at.micros)).collect()
}

#[test]
fn evaluation_of_a_newer_yellow_stores_it_and_alerts_those_due() {
    let locations = vec![location(10, NOW - 5 * MINUTE), location(11, NOW - 3 * MINUTE)];
    let mut state = stored(AlertLevel::Green, T0);
    let mut users = subscribers();
    let refresh = maybe_alert(
        &mut state,
        &live(AlertLevel::Yellow, T0 + HOUR),
        &locations,
        &mut users,
        Timestamp::new(NOW),
    );
    assert_eq!(state, stored(AlertLevel::Yellow, T0 + HOUR));
    assert_eq!(refresh, vec![10]);
    assert_eq!(
        alert_times(&users),
        vec![Some(NOW), Some(NOW), Some(NOW - HOUR), None, Some(NOW - 30 * HOUR), Some(NOW)]
    );
    for (index, subscriber) in users.iter().enumerate() {
        let was = &subscribers()[index];
        assert_eq!(subscriber.user_id, was.user_id);
        assert_eq!(subscriber.email, was.email);
        assert_eq!(subscriber.alert_threshold, was.alert_threshold);
    }
    // A second evaluation right away alerts nobody again.
    let refresh = maybe_alert(
        &mut state,
        &live(AlertLevel::Yellow, T0 + HOUR),
        &locations,
        &mut users,
        Timestamp::new(NOW + 2 * MINUTE),
    );
    assert_eq!(state, stored(AlertLevel::Yellow, T0 + HOUR));
    assert_eq!(refresh, vec![10, 11]);
    assert_eq!(
        alert_times(&users),
        vec![Some(NOW), Some(NOW), Some(NOW - HOUR), None, Some(NOW - 30 * HOUR), Some(NOW)]
    );
}

#[test]
fn evaluation_of_an_unchanged_green_changes_nothing() {
    let locations = vec![location(10, 0)];
    let mut state = stored(AlertLevel::Green, T0);
    let mut users = subscribers();
    let refresh =
        maybe_alert(&mut state, &live(AlertLevel::Green, T0), &locations, &mut users, Timestamp::new(NOW));
    assert_eq!(state, stored(AlertLevel::Green, T0));
    assert!(refresh.is_empty());
    assert_eq!(alert_times(&users), alert_times(&subscribers()));
}

#[test]
fn evaluation_of_an_older_red_alerts_without_storing() {
    let mut state = stored(AlertLevel::Yellow, T0);
    let mut users = subscribers();
    let refresh =
        maybe_alert(&mut state, &live(AlertLevel::Red, T0 - 1), &Vec::new(), &mut users, Timestamp::new(NOW));
    assert_eq!(state, stored(AlertLevel::Yellow, T0));
    assert!(refresh.is_empty());
    assert_eq!(
        alert_times(&users),
        vec![Some(NOW), Some(NOW), Some(NOW - HOUR), Some(NOW), Some(NOW), Some(NOW)]
    );
}

#[test]
fn plan_is_carried_out_on_the_listed_subscribers_only() {
    let mut state = stored(AlertLevel::Green, T0);
    let mut users = subscribers();
    let plan = plan_alerts(
        &state,
        &live(AlertLevel::Amber, T0 + 1),
        &Vec::new(),
        &users,
        Timestamp::new(NOW),
    );
    assert_eq!(plan.notify, vec![0, 1, 3, 5]);
    plan.apply(&mut state, &mut users, Timestamp::new(NOW + 5));
    assert_eq!(state, stored(AlertLevel::Amber, T0 + 1));
    assert_eq!(
        alert_times(&users),
        vec![Some(NOW + 5), Some(NOW + 5), Some(NOW - HOUR), Some(NOW + 5), Some(NOW - 30 * HOUR), Some(NOW + 5)]
    );
}
