use aurora_alert::cache::{ActivityCache, ActivityData, ActivityDataPoint};
use aurora_alert::feed::AuroraWatchError;
use aurora_alert::scheduler::{
    ingest_activity, remainder_in, start_of_hour, until_next_midnight, Task, ALERT_INTERVAL_SECONDS,
    INGESTION_INTERVAL_SECONDS,
};
use aurora_alert::time::{
    Timestamp, MICROS_PER_DAY, MICROS_PER_HOUR, MICROS_PER_MINUTE, MICROS_PER_SECOND,
};

const MIDNIGHT: i64 = 1_649_116_800_000_000;

#[test]
fn units_of_time() {
    assert_eq!(MICROS_PER_SECOND, 1_000_000);
    assert_eq!(MICROS_PER_MINUTE, 60 * MICROS_PER_SECOND);
    assert_eq!(MICROS_PER_HOUR, 60 * MICROS_PER_MINUTE);
    assert_eq!(MICROS_PER_DAY, 24 * MICROS_PER_HOUR);
    assert_eq!(ALERT_INTERVAL_SECONDS, 5 * 60);
    assert_eq!(INGESTION_INTERVAL_SECONDS, 5 * 60);
}

#[test]
fn wait_until_the_next_midnight() {
    assert_eq!(until_next_midnight(Timestamp::new(MIDNIGHT)), MICROS_PER_DAY);
    assert_eq!(until_next_midnight(Timestamp::new(MIDNIGHT + 1)), MICROS_PER_DAY - 1);
    assert_eq!(until_next_midnight(Timestamp::new(MIDNIGHT - 1)), 1);
    assert_eq!(
        until_next_midnight(Timestamp::new(1_649_164_351_000_000)),
        1_649_203_200_000_000 - 1_649_164_351_000_000
    );
    assert_eq!(until_next_midnight(Timestamp::new(0)), MICROS_PER_DAY);
    assert_eq!(until_next_midnight(Timestamp::new(-1)), 1);
    assert_eq!(until_next_midnight(Timestamp::new(-MICROS_PER_DAY)), MICROS_PER_DAY);
    assert_eq!(until_next_midnight(Timestamp::new(-MICROS_PER_DAY - 1)), 1);
    assert_eq!(until_next_midnight(Timestamp::new(-5_400_000_000)), 5_400_000_000);
    let wait = until_next_midnight(Timestamp::new(i64::MAX));
    assert!(0 < wait && wait <= MICROS_PER_DAY);
    let wait = until_next_midnight(Timestamp::new(i64::MIN));
    assert!(0 < wait && wait <= MICROS_PER_DAY);
    assert_eq!((i64::MIN as i128 + wait as i128) % MICROS_PER_DAY as i128, 0);
}

#[test]
fn remainder_is_never_negative() {
    assert_eq!(remainder_in(Timestamp::new(7), 5), 2);
    assert_eq!(remainder_in(Timestamp::new(-7), 5), 3);
    assert_eq!(remainder_in(Timestamp::new(-5), 5), 0);
    assert_eq!(remainder_in(Timestamp::new(-1), 5), 4);
    assert_eq!(remainder_in(Timestamp::new(0), 5), 0);
    assert_eq!(remainder_in(Timestamp::new(i64::MIN), 1), 0);
    assert_eq!(remainder_in(Timestamp::new(i64::MIN), i64::MAX), i64::MAX - 1);
    for now in [-100i64, -61, -60, -59, -1, 0, 1, 59, 60, 61] {
        assert_eq!(remainder_in(Timestamp::new(now), 60), now.rem_euclid(60));
    }
}

#[test]
fn hour_starts_at_its_first_microsecond() {
    assert_eq!(start_of_hour(Timestamp::new(1_649_164_351_000_000)).micros, 1_649_163_600_000_000);
    assert_eq!(start_of_hour(Timestamp::new(1_649_163_600_000_000)).micros, 1_649_163_600_000_000);
    assert_eq!(start_of_hour(Timestamp::new(-5_400_000_000)).micros, -7_200_000_000);
    assert_eq!(start_of_hour(Timestamp::new(-1)).micros, -MICROS_PER_HOUR);
    assert_eq!(start_of_hour(Timestamp::new(0)).micros, 0);
}

#[test]
fn tasks_wait_their_interval() {
    let now = Timestamp::new(MIDNIGHT + 3 * MICROS_PER_HOUR);
    assert_eq!(Task::Alert.wait_before_first_run(now), 0);
    assert_eq!(Task::Ingestion.wait_before_first_run(now), 0);
    assert_eq!(Task::Hygiene.wait_before_first_run(now), 21 * MICROS_PER_HOUR);
    assert_eq!(Task::Alert.wait_before_next_run(now), 5 * MICROS_PER_MINUTE);
    assert_eq!(Task::Ingestion.wait_before_next_run(now), 5 * MICROS_PER_MINUTE);
    assert_eq!(Task::Hygiene.wait_before_next_run(now), 21 * MICROS_PER_HOUR);
    assert_eq!(Task::Hygiene.wait_before_next_run(Timestamp::new(MIDNIGHT)), MICROS_PER_DAY);
}

#[test]
fn failed_fetch_leaves_the_cache_alone() {
    let mut cache = ActivityCache::new(Timestamp::new(3));
    let point = ActivityDataPoint::new(Timestamp::new(MIDNIGHT), 2.0f32.to_bits());
    let fetched = ActivityData::new(vec![point; 24], Timestamp::new(8)).unwrap();
    assert!(ingest_activity(Ok(fetched), &mut cache).is_ok());
    assert_eq!(cache.get(Timestamp::new(MIDNIGHT)), Some(2.0f32.to_bits()));

    let outcome = ingest_activity(Err(AuroraWatchError::Request("timed out".to_string())), &mut cache);
    assert!(matches!(outcome, Err(AuroraWatchError::Request(m)) if m == "timed out"));
    assert_eq!(cache.get(Timestamp::new(MIDNIGHT)), Some(2.0f32.to_bits()));
    let read = aurora_alert::cache::get_activity_data(&Timestamp::new(MIDNIGHT), &cache);
    assert_eq!(read.updated_at().micros, 8);
}
