//! Daily digest scheduling.
//!
//! A recurring job is anchored to a fixed local time of day (09:00 in a fixed
//! UTC+3 offset). The first fire happens at the next occurrence of that time:
//! today if it has not passed yet, otherwise tomorrow. After the first fire
//! the job repeats every exactly 24 hours of wall-clock time; the interval is
//! a fixed duration, never a recomputation of the local fire time.
//!
//! Starting the recurring digest twice for the same user stacks a second,
//! independent job; nothing deduplicates schedules. The registry records this
//! behaviour explicitly so that a future replacement policy is a deliberate,
//! visible change.

use vstd::prelude::*;
use vstd::arithmetic::div_mod::{lemma_add_mod_noop, lemma_mod_multiples_vanish, lemma_small_mod};
use crate::messages::Language;

verus! {

/// Length of the recurrence interval, in seconds.
pub const SECONDS_PER_DAY: u64 = 86400;

/// The fixed local fire time, 09:00:00, as a second of the day.
pub const FIRE_SECOND_OF_DAY: u64 = 32400;

/// The fixed local offset from UTC, +3 hours, in seconds.
pub const UTC_OFFSET_SECONDS: u64 = 10800;

/// The second of the local day at which a clock reading `utc_seconds` past
/// the UTC epoch stands, under the fixed UTC+3 offset.
pub open spec fn spec_local_second_of_day(utc_seconds: int) -> int {
    (utc_seconds + 10800) % 86400
}

/// The delay from "now" to the next occurrence of the fire time: the rest of
/// the way to 09:00 if it has not passed yet (zero exactly at 09:00),
/// otherwise the way to 09:00 tomorrow.
pub open spec fn spec_initial_delay(now_second_of_day: int) -> int {
    if now_second_of_day <= 32400 {
        32400 - now_second_of_day
    } else {
        118800 - now_second_of_day
    }
}

/// The offset of the `index`-th fire from the moment the schedule was
/// computed: the initial delay, then one full day per completed fire.
pub open spec fn spec_fire_offset(now_second_of_day: int, index: int) -> int {
    spec_initial_delay(now_second_of_day) + index * 86400
}

/// Converts a UTC clock reading in seconds to the local second of the day.
pub fn local_second_of_day(utc_seconds: u64) -> (second: u64)
    ensures
        second == spec_local_second_of_day(utc_seconds as int),
        second < 86400,
{
    let reduced: u64 = utc_seconds % SECONDS_PER_DAY;
    proof {
        lemma_add_mod_noop(utc_seconds as int, 10800, 86400);
        lemma_small_mod(10800, 86400);
    }
    (reduced + UTC_OFFSET_SECONDS) % SECONDS_PER_DAY
}

/// Computes the delay, in seconds, until the first fire of a schedule started
/// at the given local second of the day.
pub fn initial_delay_seconds(now_second_of_day: u64) -> (delay: u64)
    requires
        now_second_of_day < 86400,
    ensures
        delay == spec_initial_delay(now_second_of_day as int),
        delay < 86400,
        (now_second_of_day + delay) % 86400 == FIRE_SECOND_OF_DAY,
{
    if now_second_of_day <= FIRE_SECOND_OF_DAY {
        FIRE_SECOND_OF_DAY - now_second_of_day
    } else {
        SECONDS_PER_DAY + FIRE_SECOND_OF_DAY - now_second_of_day
    }
}

/// Every fire of a schedule lands on the fire time: the initial delay reaches
/// 09:00 local, and each later fire is a whole number of days after it.
pub proof fn lemma_fires_land_on_fire_time(now_second_of_day: int, index: int)
    requires
        0 <= now_second_of_day < 86400,
        0 <= index,
    ensures
        (now_second_of_day + spec_fire_offset(now_second_of_day, index)) % 86400 == 32400,
{
    let arrival = now_second_of_day + spec_initial_delay(now_second_of_day);
    assert(arrival == 32400 || arrival == 118800);
    lemma_mod_multiples_vanish(index, arrival, 86400);
    assert(86400 * index + arrival == now_second_of_day + spec_fire_offset(now_second_of_day, index));
    if arrival == 118800 {
        lemma_mod_multiples_vanish(1, 32400, 86400);
    }
    lemma_small_mod(32400, 86400);
}

/// Consecutive fires of one schedule are exactly one day apart.
pub proof fn lemma_period_between_fires(now_second_of_day: int, index: int)
    ensures
        spec_fire_offset(now_second_of_day, index + 1) - spec_fire_offset(now_second_of_day, index)
            == 86400,
{
    assert((index + 1) * 86400 - index * 86400 == 86400) by (nonlinear_arith);
}

/// One recurring digest job: who it is for, when it first fires, how often it
/// repeats, and the language its output uses.
#[derive(PartialEq, Eq, Structural, Clone, Copy, Debug)]
pub struct ScheduledJob {
    /// The user identity the job was started for.
    pub user_id: u64,
    /// Seconds from the moment the schedule was computed to the first fire.
    pub first_delay_seconds: u64,
    /// Seconds between consecutive fires.
    pub period_seconds: u64,
    /// The language resolved for the user when the job was started.
    pub language: Language,
}

/// How many of the jobs belong to the given user.
pub open spec fn spec_jobs_for_user(jobs: Seq<ScheduledJob>, user_id: u64) -> int
    decreases jobs.len(),
{
    if jobs.len() == 0 {
        0
    } else {
        spec_jobs_for_user(jobs.drop_last(), user_id)
            + if jobs.last().user_id == user_id { 1int } else { 0int }
    }
}

/// All recurring jobs started during this process's lifetime. Jobs are only
/// ever added; they live until the process stops.
pub struct ScheduleRegistry {
    /// Every job started so far, in start order.
    pub jobs: Vec<ScheduledJob>,
}

impl ScheduleRegistry {
    /// An empty registry; a fresh process has no outstanding schedules.
    pub fn new() -> (registry: ScheduleRegistry)
        ensures
            registry.jobs@ == Seq::<ScheduledJob>::empty(),
    {
        ScheduleRegistry { jobs: Vec::new() }
    }

    /// Starts one more recurring digest job for the user, firing first at the
    /// next local 09:00 and then daily. The job is appended unconditionally:
    /// a duplicate request stacks a second schedule rather than replacing the
    /// first.
    pub fn start_recurring(
        &mut self,
        user_id: u64,
        now_second_of_day: u64,
        language: Language,
    ) -> (job: ScheduledJob)
        requires
            now_second_of_day < 86400,
        ensures
            job == (ScheduledJob {
                user_id,
                first_delay_seconds: spec_initial_delay(now_second_of_day as int) as u64,
                period_seconds: 86400u64,
                language,
            }),
            final(self).jobs@ == old(self).jobs@.push(job),
    {
        let delay = initial_delay_seconds(now_second_of_day);
        let job = ScheduledJob {
            user_id,
            first_delay_seconds: delay,
            period_seconds: SECONDS_PER_DAY,
            language,
        };
        self.jobs.push(job);
        job
    }

    /// How many schedules the user currently has.
    pub fn count_for_user(&self, user_id: u64) -> (count: usize)
        ensures
            count == spec_jobs_for_user(self.jobs@, user_id),
    {
        let mut count: usize = 0;
        let mut i: usize = 0;
        while i < self.jobs.len()
            invariant
                i <= self.jobs.len(),
                count <= i,
                count == spec_jobs_for_user(self.jobs@.subrange(0, i as int), user_id),
            decreases self.jobs.len() - i,
        {
            proof {
                assert(self.jobs@.subrange(0, i + 1).drop_last() =~= self.jobs@.subrange(
                    0,
                    i as int,
                ));
                assert(self.jobs@.subrange(0, i + 1).last() == self.jobs@[i as int]);
            }
            if self.jobs[i].user_id == user_id {
                count = count + 1;
            }
            i = i + 1;
        }
        proof {
            assert(self.jobs@.subrange(0, self.jobs@.len() as int) =~= self.jobs@);
        }
        count
    }
}

/// Starting the recurring digest twice for one user yields two independent
/// jobs: both stand in the registry afterwards, each firing on its own
/// schedule, and neither start replaces the other.
pub proof fn lemma_duplicate_start_stacks(
    jobs: Seq<ScheduledJob>,
    first: ScheduledJob,
    second: ScheduledJob,
    user_id: u64,
)
    requires
        first.user_id == user_id,
        second.user_id == user_id,
    ensures
        spec_jobs_for_user(jobs.push(first).push(second), user_id)
            == spec_jobs_for_user(jobs, user_id) + 2,
        jobs.push(first).push(second)[jobs.len() as int] == first,
        jobs.push(first).push(second)[jobs.len() as int + 1] == second,
{
    let stacked = jobs.push(first).push(second);
    assert(stacked.drop_last() =~= jobs.push(first));
    assert(jobs.push(first).drop_last() =~= jobs);
    assert(stacked.last() == second);
    assert(jobs.push(first).last() == first);
    assert(spec_jobs_for_user(stacked, user_id)
        == spec_jobs_for_user(jobs.push(first), user_id) + 1);
    assert(spec_jobs_for_user(jobs.push(first), user_id)
        == spec_jobs_for_user(jobs, user_id) + 1);
}

} // verus!
