use news_wizard::messages::Language;
use news_wizard::schedule::{
    initial_delay_seconds, local_second_of_day, ScheduleRegistry, FIRE_SECOND_OF_DAY,
    SECONDS_PER_DAY, UTC_OFFSET_SECONDS,
};

#[test]
fn delay_one_hour_before_fire_time() {
    // 08:00 local: the first fire is in exactly one hour.
    assert_eq!(initial_delay_seconds(8 * 3600), 3600);
}

#[test]
fn delay_one_hour_after_fire_time() {
    // 10:00 local: 09:00 has passed, the first fire is in exactly 23 hours.
    assert_eq!(initial_delay_seconds(10 * 3600), 23 * 3600);
}

#[test]
fn delay_at_fire_time_is_zero() {
    assert_eq!(initial_delay_seconds(FIRE_SECOND_OF_DAY), 0);
}

#[test]
fn delay_just_after_fire_time_is_almost_a_day() {
    assert_eq!(initial_delay_seconds(FIRE_SECOND_OF_DAY + 1), SECONDS_PER_DAY - 1);
}

#[test]
fn delay_at_midnight() {
    assert_eq!(initial_delay_seconds(0), 9 * 3600);
}

#[test]
fn delay_at_end_of_day() {
    assert_eq!(initial_delay_seconds(SECONDS_PER_DAY - 1), 9 * 3600 + 1);
}

#[test]
fn local_time_is_three_hours_ahead_of_utc() {
    assert_eq!(UTC_OFFSET_SECONDS, 3 * 3600);
    assert_eq!(local_second_of_day(0), 10800);
    // 06:00 UTC is 09:00 local.
    assert_eq!(local_second_of_day(6 * 3600), FIRE_SECOND_OF_DAY);
    // 22:00 UTC is 01:00 local the next day.
    assert_eq!(local_second_of_day(22 * 3600), 3600);
    // The conversion only depends on the time of day.
    assert_eq!(local_second_of_day(1_700_000_000), (1_700_000_000 + 10800) % 86400);
}

#[test]
fn conversion_never_overflows() {
    assert_eq!(
        local_second_of_day(u64::MAX),
        ((u64::MAX % 86400) + 10800) % 86400
    );
}

#[test]
fn starting_a_job_records_delay_and_period() {
    let mut registry = ScheduleRegistry::new();
    let job = registry.start_recurring(99, 8 * 3600, Language::En);
    assert_eq!(job.user_id, 99);
    assert_eq!(job.first_delay_seconds, 3600);
    assert_eq!(job.period_seconds, SECONDS_PER_DAY);
    assert_eq!(job.language, Language::En);
    assert_eq!(registry.jobs.len(), 1);
    assert_eq!(registry.count_for_user(99), 1);
    assert_eq!(registry.count_for_user(100), 0);
}

#[test]
fn duplicate_start_stacks_two_independent_jobs() {
    // Starting the recurring digest twice for the same user yields two
    // independently firing jobs: the second does not replace the first.
    let mut registry = ScheduleRegistry::new();
    let first = registry.start_recurring(7, 8 * 3600, Language::Ru);
    let second = registry.start_recurring(7, 10 * 3600, Language::Ru);
    assert_eq!(registry.count_for_user(7), 2);
    assert_eq!(registry.jobs.len(), 2);
    assert_eq!(registry.jobs[0], first);
    assert_eq!(registry.jobs[1], second);
    // Each fires on its own schedule.
    assert_eq!(first.first_delay_seconds, 3600);
    assert_eq!(second.first_delay_seconds, 23 * 3600);
    assert_eq!(first.period_seconds, SECONDS_PER_DAY);
    assert_eq!(second.period_seconds, SECONDS_PER_DAY);
}

#[test]
fn jobs_of_different_users_are_counted_apart() {
    let mut registry = ScheduleRegistry::new();
    registry.start_recurring(1, 0, Language::En);
    registry.start_recurring(2, 0, Language::Ru);
    registry.start_recurring(1, 3600, Language::En);
    assert_eq!(registry.count_for_user(1), 2);
    assert_eq!(registry.count_for_user(2), 1);
    assert_eq!(registry.count_for_user(3), 0);
}
