//! # Schedule execution criteria
//!
//! The term "last backup" includes failed backups.
//!
//! ## Hourly
//!
//! - The last backup is more than one hour ago (manual backups count).
//! - The system is in use for more than [`USED_THRESHOLD_NANOS`].
//!
//! ## Daily
//!
//! Daily backups try to ensure that a backup exists for every day the system
//! is used.
//!
//! - A regular backup starts past the preferred time if no scheduled backup
//!   for this day exists.
//! - A catch-up backup starts if no backup exists after the preferred time
//!   of the day before.
//! - A completion backup starts if a backup exists for the current day but
//!   it was before the preferred time.
//!
//! ## Weekly
//!
//! - Due on the preferred weekday if no backup exists since, and the system
//!   is in use for at least [`USED_THRESHOLD_NANOS`].
//! - Retried every day after failure: a failed last backup is retried on any
//!   later day, once the system is in use long enough.
//!
//! ## Monthly
//!
//! - Due from the preferred day of the month on if no backup exists since,
//!   and also if none exists since the preferred day of the month before.
//! - Retried every day after failure: a failed last backup is retried on any
//!   later day.

use vstd::prelude::*;

use crate::borg::json::RepoId;
use crate::config::{ConfigId, Frequency, Weekday};
use crate::schedule::USED_THRESHOLD_NANOS;
use crate::time::{day_shifted_by_months, day_with_day_of_month, shift_months, with_day_of_month, Day, Moment, MAX_DAY, MIN_DAY, NANOS_PER_SEC, SECS_PER_DAY, SECS_PER_HOUR};

verus! {

/// Global requirements: what keeps any backup of a configuration from
/// starting.
#[derive(Debug)]
pub enum Global {
    /// The backup itself is running.
    ThisBackupRunning,
    /// Another configuration's backup runs on the same repository.
    OtherBackupRunning(ConfigId),
    /// The repository is reached over a metered connection.
    MeteredConnection,
    OnBattery,
}

/// A configuration whose backup is running, with the repository of that
/// configuration where it is known.
pub struct RunningBackup {
    pub config_id: ConfigId,
    pub repo_id: Option<RepoId>,
}

pub open spec fn runs_on_repo(backup: RunningBackup, repo: Seq<char>) -> bool {
    match backup.repo_id {
        Some(r) => r@ == repo,
        None => false,
    }
}

/// `i` is the first running backup that runs on `repo`.
pub open spec fn is_first_on_repo(running: Seq<RunningBackup>, repo: Seq<char>, i: int) -> bool {
    &&& 0 <= i < running.len()
    &&& runs_on_repo(running[i], repo)
    &&& forall|j: int| 0 <= j < i ==> !runs_on_repo(#[trigger] running[j], repo)
}

pub open spec fn running_requirements(
    config_id: Seq<char>,
    repo: Seq<char>,
    running: Seq<RunningBackup>,
) -> Seq<Global> {
    if exists|i: int| is_first_on_repo(running, repo, i) {
        let i = choose|i: int| is_first_on_repo(running, repo, i);
        if running[i].config_id@ == config_id {
            seq![Global::ThisBackupRunning]
        } else {
            seq![Global::OtherBackupRunning(running[i].config_id)]
        }
    } else {
        seq![]
    }
}

/// The violated global requirements, in the order in which they are checked.
pub open spec fn global_requirements(
    config_id: Seq<char>,
    repo: Seq<char>,
    running: Seq<RunningBackup>,
    network_metered: bool,
    host_local: Option<bool>,
    on_battery: Option<bool>,
) -> Seq<Global> {
    running_requirements(config_id, repo, running) + (if network_metered && host_local == Some(
        false,
    ) {
        seq![Global::MeteredConnection]
    } else {
        seq![]
    }) + (if on_battery == Some(true) {
        seq![Global::OnBattery]
    } else {
        seq![]
    })
}

proof fn lemma_first_on_repo_unique(running: Seq<RunningBackup>, repo: Seq<char>, i: int, k: int)
    requires
        is_first_on_repo(running, repo, i),
        is_first_on_repo(running, repo, k),
    ensures
        i == k,
{
    if i < k {
        assert(!runs_on_repo(running[i], repo));
    }
    if k < i {
        assert(!runs_on_repo(running[k], repo));
    }
}

/// The first running backup on `repo_id`, if there is one.
fn first_on_repo(running: &Vec<RunningBackup>, repo_id: &RepoId) -> (r: Option<usize>)
    ensures
        match r {
            Some(i) => is_first_on_repo(running@, repo_id@, i as int),
            None => forall|j: int|
                0 <= j < running@.len() ==> !runs_on_repo(#[trigger] running@[j], repo_id@),
        },
{
    let mut i: usize = 0;
    while i < running.len()
        invariant
            i <= running.len(),
            forall|j: int| 0 <= j < i ==> !runs_on_repo(#[trigger] running@[j], repo_id@),
        decreases running.len() - i,
    {
        let on_repo = match &running[i].repo_id {
            Some(r) => r.same_as(repo_id),
            None => false,
        };
        if on_repo {
            return Some(i);
        }
        i = i + 1;
    }
    None
}

impl Global {
    /// Returns all global requirements that are violated, given the backups
    /// that are running (in the order of the histories), whether the network
    /// is metered, whether the repository's host is the local machine (where
    /// known), and whether the system runs on battery (where known).
    pub fn check(
        config_id: &ConfigId,
        repo_id: &RepoId,
        running: &Vec<RunningBackup>,
        network_metered: bool,
        host_local: Option<bool>,
        on_battery: Option<bool>,
    ) -> (r: Vec<Global>)
        ensures
            r@ == global_requirements(
                config_id@,
                repo_id@,
                running@,
                network_metered,
                host_local,
                on_battery,
            ),
            r@.contains(Global::MeteredConnection) <==> (network_metered && host_local == Some(
                false,
            )),
            r@.contains(Global::OnBattery) <==> on_battery == Some(true),
    {
        proof {
            lemma_global_requirements_follow_conditions(
                config_id@,
                repo_id@,
                running@,
                network_metered,
                host_local,
                on_battery,
            );
        }
        let mut vec: Vec<Global> = Vec::new();
        let first = first_on_repo(running, repo_id);
        match first {
            Some(i) => {
                proof {
                    let k = choose|k: int| is_first_on_repo(running@, repo_id@, k);
                    lemma_first_on_repo_unique(running@, repo_id@, i as int, k);
                }
                if running[i].config_id.same_as(config_id) {
                    vec.push(Global::ThisBackupRunning);
                } else {
                    vec.push(Global::OtherBackupRunning(running[i].config_id.clone()));
                }
            },
            None => {},
        }
        assert(vec@ == running_requirements(config_id@, repo_id@, running@));
        let remote = match host_local {
            Some(local) => !local,
            None => false,
        };
        if network_metered && remote {
            vec.push(Global::MeteredConnection);
        }
        let battery = match on_battery {
            Some(b) => b,
            None => false,
        };
        if battery {
            vec.push(Global::OnBattery);
        }
        vec
    }
}

/// Hints: conditions that make a backup fail or wait, shown to the user.
#[derive(Debug, Clone, Copy, PartialEq, Eq)]
pub enum Hint {
    DeviceMissing,
    NetworkMissing,
}

pub open spec fn hints(
    drive_connected: Option<bool>,
    is_network: bool,
    network_available: bool,
) -> Seq<Hint> {
    (if drive_connected == Some(false) {
        seq![Hint::DeviceMissing]
    } else {
        seq![]
    }) + (if is_network && !network_available {
        seq![Hint::NetworkMissing]
    } else {
        seq![]
    })
}

impl Hint {
    /// The hints that apply to a repository, given whether its drive is
    /// connected (where it is on a drive), whether it is reached over the
    /// network, and whether the network is available.
    pub fn check(drive_connected: Option<bool>, is_network: bool, network_available: bool) -> (r:
        Vec<Hint>)
        ensures
            r@ == hints(drive_connected, is_network, network_available),
            r@.contains(Hint::DeviceMissing) <==> drive_connected == Some(false),
            r@.contains(Hint::NetworkMissing) <==> (is_network && !network_available),
    {
        proof {
            lemma_hints_follow_conditions(drive_connected, is_network, network_available);
        }
        let mut vec: Vec<Hint> = Vec::new();
        let disconnected = match drive_connected {
            Some(c) => !c,
            None => false,
        };
        if disconnected {
            vec.push(Hint::DeviceMissing);
        }
        if is_network && !network_available {
            vec.push(Hint::NetworkMissing);
        }
        vec
    }
}

/// Why a backup is not due.
#[derive(Debug, Clone, Copy, PartialEq, Eq)]
#[allow(inconsistent_fields)]
pub enum Due {
    /// Not before the given moment.
    NotDueDateTime { next: Moment },
    /// Not before the given day.
    NotDueDate { next: Day },
    /// The backup is running.
    Running,
}

/// The last backup: when it ended, as a moment and as a day of the local
/// calendar, and whether it succeeded.
#[derive(Debug, Clone, Copy, PartialEq, Eq)]
pub struct LastRun {
    pub end: Moment,
    pub end_day: Day,
    pub succeeded: bool,
}

/// What the history of a configuration tells the scheduler.
#[derive(Debug, Clone, Copy, PartialEq, Eq)]
pub struct RunHistory {
    /// A backup of the configuration is running.
    pub running: bool,
    /// The most recent backup, if there was one.
    pub last_run: Option<LastRun>,
}

/// The time at which the scheduler asks: now, today's date, and, for a daily
/// schedule, the moment of today's preferred time.
#[derive(Debug, Clone, Copy, PartialEq, Eq)]
pub struct Clock {
    pub now: Moment,
    pub today: Day,
    pub preferred_time_today: Option<Moment>,
}

/// The system was in use for at least the threshold.
pub open spec fn used_enough(activity_nanos: u128) -> bool {
    activity_nanos >= USED_THRESHOLD_NANOS
}

/// The system was in use for more than the threshold.
pub open spec fn used_more_than_threshold(activity_nanos: u128) -> bool {
    activity_nanos > USED_THRESHOLD_NANOS
}

pub open spec fn nanos_per_hour() -> int {
    SECS_PER_HOUR * NANOS_PER_SEC
}

pub open spec fn nanos_per_day() -> int {
    SECS_PER_DAY * NANOS_PER_SEC
}

/// Hourly: due when the last backup is more than an hour ago and the system
/// is in use for more than the threshold; otherwise due an hour after the
/// last backup.
pub open spec fn hourly_due(end: Moment, activity_nanos: u128, now: Moment) -> Result<(), Due> {
    if now.total_nanos() - end.total_nanos() > nanos_per_hour() && used_more_than_threshold(
        activity_nanos,
    ) {
        Ok(())
    } else {
        Err(Due::NotDueDateTime { next: end.spec_shifted(SECS_PER_HOUR as int) })
    }
}

pub open spec fn daily_due(end: Moment, activity_nanos: u128, now: Moment, scheduled: Moment) -> Result<
    (),
    Due,
> {
    let before = scheduled.spec_shifted(-SECS_PER_DAY);
    if end.total_nanos() < scheduled.total_nanos() && scheduled.total_nanos() < now.total_nanos() {
        // regular backup
        Ok(())
    } else if end.total_nanos() < before.total_nanos() && used_enough(activity_nanos) {
        // catch-up backup
        Ok(())
    } else {
        Err(
            Due::NotDueDateTime {
                next: if now.total_nanos() < scheduled.total_nanos() {
                    scheduled
                } else {
                    scheduled.spec_shifted(SECS_PER_DAY as int)
                },
            },
        )
    }
}

/// The day that a weekly schedule looks at: today moved forward by the
/// distance between today's weekday and the preferred one.
pub open spec fn weekly_scheduled(today: Day, preferred: Weekday) -> Day {
    let diff = today.spec_weekday_from_sunday() - preferred.spec_number_from_sunday();
    today.spec_plus_days(
        if diff < 0 {
            -diff
        } else {
            diff
        },
    )
}

/// The weekly rule on the preferred weekday, with the last backup, failed
/// or not, counting.
pub open spec fn weekly_rule(end_day: Day, activity_nanos: u128, today: Day, preferred: Weekday) -> Result<
    (),
    Due,
> {
    let scheduled = weekly_scheduled(today, preferred);
    if today.days_from_ce >= scheduled.days_from_ce && end_day.days_from_ce
        < scheduled.days_from_ce && used_enough(activity_nanos) {
        Ok(())
    } else {
        Err(
            Due::NotDueDate {
                next: if today.days_from_ce < scheduled.days_from_ce {
                    scheduled
                } else {
                    scheduled.spec_plus_days(7)
                },
            },
        )
    }
}

/// A failed last backup is retried: on any day after its failure, where
/// `needs_use` asks for the system to be in use long enough first; on the
/// day of the failure, the retry is due the next day.
pub open spec fn with_retry(rule: Result<(), Due>, last: LastRun, retry_allowed: bool, today: Day) -> Result<
    (),
    Due,
> {
    if rule is Ok {
        Ok(())
    } else if !last.succeeded && last.end_day.days_from_ce < today.days_from_ce && retry_allowed {
        Ok(())
    } else if !last.succeeded {
        Err(Due::NotDueDate { next: today.spec_plus_days(1) })
    } else {
        rule
    }
}

pub open spec fn weekly_due(last: LastRun, activity_nanos: u128, today: Day, preferred: Weekday) -> Result<
    (),
    Due,
> {
    with_retry(
        weekly_rule(last.end_day, activity_nanos, today, preferred),
        last,
        used_enough(activity_nanos),
        today,
    )
}

/// The monthly rule, with the last backup, failed or not, counting.
pub open spec fn monthly_rule(
    end_day: Day,
    today: Day,
    scheduled: Day,
    previous: Day,
    following: Day,
) -> Result<(), Due> {
    if today.days_from_ce >= scheduled.days_from_ce && end_day.days_from_ce
        < scheduled.days_from_ce {
        Ok(())
    } else if today.days_from_ce >= previous.days_from_ce && end_day.days_from_ce
        < previous.days_from_ce {
        Ok(())
    } else {
        Err(
            Due::NotDueDate {
                next: if today.days_from_ce < scheduled.days_from_ce {
                    scheduled
                } else {
                    following
                },
            },
        )
    }
}

pub open spec fn monthly_due(
    last: LastRun,
    today: Day,
    scheduled: Day,
    previous: Day,
    following: Day,
) -> Result<(), Due> {
    with_retry(monthly_rule(last.end_day, today, scheduled, previous, following), last, true, today)
}

/// The day of this month that a monthly schedule prefers, or today where this
/// month has no such day.
pub open spec fn monthly_scheduled(today: Day, preferred_day: u8) -> Day {
    match day_with_day_of_month(today.days_from_ce, preferred_day as u32) {
        Some(d) => Day { days_from_ce: d },
        None => today,
    }
}

pub open spec fn months_shifted(day: Day, months: i32) -> Day {
    Day { days_from_ce: day_shifted_by_months(day.days_from_ce, months) }
}

/// Whether a backup is due, and if not, why.
pub open spec fn due(frequency: Frequency, history: RunHistory, activity_nanos: u128, clock: Clock) -> Result<
    (),
    Due,
> {
    if history.running {
        Err(Due::Running)
    } else {
        match history.last_run {
            // never ran before
            None => Ok(()),
            Some(last) => match frequency {
                Frequency::Hourly => hourly_due(last.end, activity_nanos, clock.now),
                Frequency::Daily { .. } => daily_due(
                    last.end,
                    activity_nanos,
                    clock.now,
                    clock.preferred_time_today.unwrap(),
                ),
                Frequency::Weekly { preferred_weekday } => weekly_due(
                    last,
                    activity_nanos,
                    clock.today,
                    preferred_weekday,
                ),
                Frequency::Monthly { preferred_day } => {
                    let scheduled = monthly_scheduled(clock.today, preferred_day);
                    monthly_due(
                        last,
                        clock.today,
                        scheduled,
                        months_shifted(scheduled, -1i32),
                        months_shifted(scheduled, 1i32),
                    )
                },
            },
        }
    }
}

/// What [`Due::check`] needs of its inputs where the schedule is consulted:
/// moments whose arithmetic stays in range, the moment of the preferred time
/// for a daily schedule, and days that chrono can shift.
pub open spec fn check_inputs_valid(frequency: Frequency, history: RunHistory, clock: Clock) -> bool {
    match history.last_run {
        Some(last) if !history.running => match frequency {
            Frequency::Hourly => last.end.shiftable() && clock.now.normalized(),
            Frequency::Daily { .. } => {
                &&& clock.preferred_time_today matches Some(s)
                &&& s.shiftable()
                &&& last.end.normalized()
                &&& clock.now.normalized()
            },
            Frequency::Weekly { .. } => clock.today.in_range(),
            Frequency::Monthly { .. } => MIN_DAY + 62 <= clock.today.days_from_ce <= MAX_DAY - 62,
        },
        _ => true,
    }
}

/// A not-due answer names a moment after now, or a day after today.
pub open spec fn lies_ahead(r: Result<(), Due>, clock: Clock) -> bool {
    match r {
        Err(Due::NotDueDateTime { next }) => next.total_nanos() > clock.now.total_nanos(),
        Err(Due::NotDueDate { next }) => next.days_from_ce > clock.today.days_from_ce,
        _ => true,
    }
}

/// The inputs on which a not-due answer lies ahead: all but an hourly
/// schedule whose last backup is an hour ago or more while the system was
/// used too little (or exactly an hour ago), and a daily one whose preferred
/// time today lies a day or more before now, which a clock read once, with
/// today the date of now and no change of the local offset within the day,
/// does not give.
pub open spec fn answer_lies_ahead_on(
    frequency: Frequency,
    history: RunHistory,
    activity_nanos: u128,
    clock: Clock,
) -> bool {
    match history.last_run {
        Some(last) if !history.running => match frequency {
            Frequency::Hourly => clock.now.total_nanos() - last.end.total_nanos() < nanos_per_hour()
                || (used_more_than_threshold(activity_nanos) && clock.now.total_nanos()
                - last.end.total_nanos() > nanos_per_hour()),
            Frequency::Daily { .. } => clock.now.total_nanos()
                < clock.preferred_time_today.unwrap().total_nanos() + nanos_per_day(),
            _ => true,
        },
        _ => true,
    }
}

impl Due {
    /// How long until the backup is due, in nanoseconds; `None` while it runs.
    pub open spec fn spec_next_due(self, now: Moment, today: Day) -> Option<int> {
        match self {
            Due::NotDueDateTime { next } => Some(next.total_nanos() - now.total_nanos()),
            Due::NotDueDate { next } => Some(
                (next.days_from_ce - today.days_from_ce) * nanos_per_day(),
            ),
            Due::Running => None,
        }
    }

    /// How long until the backup is due, in nanoseconds, seen at `now` on
    /// `today`; `None` while it runs.
    pub fn next_due(&self, now: Moment, today: Day) -> (r: Option<i128>)
        ensures
            r == match self.spec_next_due(now, today) {
                Some(n) => Some(n as i128),
                None => None,
            },
            r matches Some(n) ==> self.spec_next_due(now, today) == Some(n as int),
            (match *self {
                Due::NotDueDate { next } => r matches Some(n) && n == (next.days_from_ce
                    - today.days_from_ce) * 86_400_000_000_000,
                Due::NotDueDateTime { next } => r matches Some(n) && n == next.total_nanos()
                    - now.total_nanos(),
                Due::Running => r is None,
            }),
    {
        match self {
            Due::NotDueDateTime { next } => Some(next.nanos_since(now)),
            Due::NotDueDate { next } => {
                let days: i128 = next.days_from_ce as i128 - today.days_from_ce as i128;
                assert(-4294967296 <= days <= 4294967296);
                assert(days * 86_400_000_000_000 <= 4294967296 * 86_400_000_000_000)
                    by (nonlinear_arith)
                    requires
                        days <= 4294967296,
                ;
                assert(days * 86_400_000_000_000 >= -4294967296 * 86_400_000_000_000)
                    by (nonlinear_arith)
                    requires
                        days >= -4294967296,
                ;
                Some(days * 86_400_000_000_000)
            },
            Due::Running => None,
        }
    }

    /// The hourly rule: due when the last backup ended more than an hour ago
    /// and the system was used for more than the threshold; otherwise due an
    /// hour after the last backup.
    pub fn check_hourly(end: Moment, activity_nanos: u128, now: Moment) -> (r: Result<(), Due>)
        requires
            end.shiftable(),
            now.normalized(),
        ensures
            r == hourly_due(end, activity_nanos, now),
    {
        let ago = now.nanos_since(end);
        if ago > 3_600_000_000_000 && activity_nanos > USED_THRESHOLD_NANOS {
            Ok(())
        } else {
            Err(Due::NotDueDateTime { next: end.shifted(SECS_PER_HOUR) })
        }
    }

    /// The daily rule, given the moment of today's preferred time.
    pub fn check_daily(end: Moment, activity_nanos: u128, now: Moment, scheduled: Moment) -> (r:
        Result<(), Due>)
        requires
            end.normalized(),
            now.normalized(),
            scheduled.shiftable(),
        ensures
            r == daily_due(end, activity_nanos, now, scheduled),
            (end.total_nanos() >= scheduled.total_nanos() - 86_400_000_000_000 && now.total_nanos()
                < scheduled.total_nanos()) ==> (r matches Err(Due::NotDueDateTime { next }) && next
                == scheduled),
    {
        proof {
            lemma_daily_rule(end, activity_nanos, now, scheduled);
        }
        let before = scheduled.shifted(-SECS_PER_DAY);
        if end.is_before(scheduled) && scheduled.is_before(now) {
            // regular backup
            Ok(())
        } else if end.is_before(before) && activity_nanos >= USED_THRESHOLD_NANOS {
            // catch-up backup
            Ok(())
        } else {
            let next = if now.is_before(scheduled) {
                scheduled
            } else {
                scheduled.shifted(SECS_PER_DAY)
            };
            Err(Due::NotDueDateTime { next })
        }
    }

    /// Retries a failed last backup on top of a weekly or monthly rule's
    /// answer `rule`.
    fn retry(rule: Result<(), Due>, last: LastRun, retry_allowed: bool, today: Day) -> (r: Result<
        (),
        Due,
    >)
        requires
            today.in_range(),
        ensures
            r == with_retry(rule, last, retry_allowed, today),
    {
        if rule.is_ok() {
            Ok(())
        } else if !last.succeeded && last.end_day.days_from_ce < today.days_from_ce
            && retry_allowed {
            Ok(())
        } else if !last.succeeded {
            Err(Due::NotDueDate { next: today.plus_days(1) })
        } else {
            rule
        }
    }

    /// The weekly rule: due on the preferred weekday where no backup exists
    /// since and the system was used long enough, and a failed last backup
    /// retried on any later day once the system was used long enough.
    pub fn check_weekly(last: LastRun, activity_nanos: u128, today: Day, preferred: Weekday) -> (r:
        Result<(), Due>)
        requires
            today.in_range(),
        ensures
            r == weekly_due(last, activity_nanos, today, preferred),
            (last.succeeded && today.spec_weekday_from_sunday()
                != preferred.spec_number_from_sunday()) ==> (r matches Err(Due::NotDueDate { next })
                && next.days_from_ce > today.days_from_ce),
    {
        proof {
            if last.succeeded {
                lemma_weekly_rule(last, activity_nanos, today, preferred);
            }
        }
        let diff: i32 = today.weekday_from_sunday() as i32 - preferred.number_from_sunday() as i32;
        let distance: i32 = if diff < 0 {
            -diff
        } else {
            diff
        };
        let scheduled = today.plus_days(distance);
        let rule = if today.days_from_ce >= scheduled.days_from_ce && last.end_day.days_from_ce
            < scheduled.days_from_ce && activity_nanos >= USED_THRESHOLD_NANOS {
            Ok(())
        } else {
            let next = if today.days_from_ce < scheduled.days_from_ce {
                scheduled
            } else {
                today.plus_days(distance + 7)
            };
            Err(Due::NotDueDate { next })
        };
        Due::retry(rule, last, activity_nanos >= USED_THRESHOLD_NANOS, today)
    }

    /// The monthly rule, given this month's scheduled day and that day moved
    /// back and forth by a month, with a failed last backup retried on any
    /// later day.
    pub fn check_monthly(last: LastRun, today: Day, scheduled: Day, previous: Day, following: Day) -> (r:
        Result<(), Due>)
        requires
            today.in_range(),
        ensures
            r == monthly_due(last, today, scheduled, previous, following),
    {
        let end_day = last.end_day;
        let rule = if today.days_from_ce >= scheduled.days_from_ce && end_day.days_from_ce
            < scheduled.days_from_ce {
            Ok(())
        } else if today.days_from_ce >= previous.days_from_ce && end_day.days_from_ce
            < previous.days_from_ce {
            Ok(())
        } else {
            let next = if today.days_from_ce < scheduled.days_from_ce {
                scheduled
            } else {
                following
            };
            Err(Due::NotDueDate { next })
        };
        Due::retry(rule, last, true, today)
    }

    /// Whether a scheduled backup of a configuration is due: `Ok` when it is,
    /// and otherwise when it will be, or that it is running. `activity_nanos`
    /// is how long the system has been in use, in nanoseconds. Where the answer
    /// is not due, the moment or day it names lies ahead, on all inputs but
    /// those that [`answer_lies_ahead_on`] leaves out.
    pub fn check(frequency: &Frequency, history: &RunHistory, activity_nanos: u128, clock: &Clock) -> (r:
        Result<(), Due>)
        requires
            check_inputs_valid(*frequency, *history, *clock),
        ensures
            r == due(*frequency, *history, activity_nanos, *clock),
            answer_lies_ahead_on(*frequency, *history, activity_nanos, *clock) ==> lies_ahead(
                r,
                *clock,
            ),
    {
        if history.running {
            return Err(Due::Running);
        }
        match history.last_run {
            // never ran before
            None => Ok(()),
            Some(last) => match frequency {
                Frequency::Hourly => Due::check_hourly(last.end, activity_nanos, clock.now),
                Frequency::Daily { .. } => {
                    let scheduled = clock.preferred_time_today.unwrap();
                    Due::check_daily(last.end, activity_nanos, clock.now, scheduled)
                },
                Frequency::Weekly { preferred_weekday } => Due::check_weekly(
                    last,
                    activity_nanos,
                    clock.today,
                    *preferred_weekday,
                ),
                Frequency::Monthly { preferred_day } => {
                    let today = clock.today;
                    let found = with_day_of_month(today, *preferred_day as u32);
                    let scheduled = match found {
                        Some(d) => d,
                        None => today,
                    };
                    let previous = shift_months(scheduled, -1);
                    let following = shift_months(scheduled, 1);
                    proof {
                        // today lies in the month of the scheduled day, so
                        // before the day a month after it
                        let e = today.days_from_ce;
                        assert(day_with_day_of_month(e, 1) == day_with_day_of_month(
                            scheduled.days_from_ce,
                            1,
                        ));
                        assert(e < following.days_from_ce);
                    }
                    Due::check_monthly(last, today, scheduled, previous, following)
                },
            },
        }
    }
}

/// A configuration whose backup is running is never due, and the scheduler
/// has no time to wait for it.
pub proof fn lemma_running_is_never_due(
    frequency: Frequency,
    history: RunHistory,
    activity_nanos: u128,
    clock: Clock,
)
    requires
        history.running,
    ensures
        due(frequency, history, activity_nanos, clock) == Err::<(), Due>(Due::Running),
        Due::Running.spec_next_due(clock.now, clock.today) is None,
{
}

/// A configuration that never ran a backup, and runs none, is due whatever
/// its frequency.
pub proof fn lemma_first_backup_is_due(
    frequency: Frequency,
    history: RunHistory,
    activity_nanos: u128,
    clock: Clock,
)
    requires
        !history.running,
        history.last_run is None,
    ensures
        due(frequency, history, activity_nanos, clock) == Ok::<(), Due>(()),
{
}

/// A failed weekly or monthly backup is retried every day after the
/// failure: on a later day it is due (a weekly one once the system was in
/// use long enough), and on the day of the failure it is due the next day.
pub proof fn lemma_failed_backup_is_retried(
    frequency: Frequency,
    last: LastRun,
    activity_nanos: u128,
    clock: Clock,
)
    requires
        frequency is Weekly || frequency is Monthly,
        !last.succeeded,
        frequency is Weekly ==> used_enough(activity_nanos),
        MIN_DAY <= clock.today.days_from_ce < MAX_DAY,
    ensures
        ({
            let r = due(frequency, RunHistory { running: false, last_run: Some(last) }, activity_nanos, clock);
            &&& last.end_day.days_from_ce < clock.today.days_from_ce ==> r == Ok::<(), Due>(())
            &&& last.end_day.days_from_ce >= clock.today.days_from_ce ==> (r == Ok::<(), Due>(())
                || r == Err::<(), Due>(Due::NotDueDate { next: clock.today.spec_plus_days(1) }))
        }),
{
}

/// A weekly backup that is not due waits for a later day: at least one day
/// and at most a week.
pub proof fn lemma_weekly_wait_is_ahead(
    last: LastRun,
    activity_nanos: u128,
    today: Day,
    preferred: Weekday,
    now: Moment,
)
    requires
        today.in_range(),
        weekly_due(last, activity_nanos, today, preferred) is Err,
    ensures
        ({
            let d = weekly_due(last, activity_nanos, today, preferred)->Err_0;
            &&& d is NotDueDate
            &&& d.spec_next_due(now, today)->0 >= nanos_per_day()
            &&& d.spec_next_due(now, today)->0 <= 7 * nanos_per_day()
        }),
{
    let d = weekly_due(last, activity_nanos, today, preferred)->Err_0;
    let n = d->NotDueDate_next.days_from_ce - today.days_from_ce;
    assert(1 <= n <= 7);
    assert(n * nanos_per_day() >= nanos_per_day()) by (nonlinear_arith)
        requires
            n >= 1,
    ;
    assert(n * nanos_per_day() <= 7 * nanos_per_day()) by (nonlinear_arith)
        requires
            n <= 7,
    ;
}

/// An hourly backup that is not due although the system was used for more
/// than the threshold waits until an hour after the last backup, which lies
/// ahead unless that backup ended exactly an hour ago.
pub proof fn lemma_hourly_wait_is_ahead(end: Moment, activity_nanos: u128, now: Moment, today: Day)
    requires
        end.shiftable(),
        used_more_than_threshold(activity_nanos),
        now.total_nanos() - end.total_nanos() != nanos_per_hour(),
        hourly_due(end, activity_nanos, now) is Err,
    ensures
        ({
            let d = hourly_due(end, activity_nanos, now)->Err_0;
            &&& d == Due::NotDueDateTime { next: end.spec_shifted(SECS_PER_HOUR as int) }
            &&& d.spec_next_due(now, today)->0 == end.total_nanos() + nanos_per_hour()
                - now.total_nanos()
            &&& d.spec_next_due(now, today)->0 > 0
        }),
{
}

/// A daily backup that is not due waits for today's preferred time if that
/// is still ahead, and otherwise for the same time a day later: unless the
/// preferred time passed a day ago or more, the wait lies ahead.
pub proof fn lemma_daily_wait_is_ahead(
    end: Moment,
    activity_nanos: u128,
    now: Moment,
    scheduled: Moment,
    today: Day,
)
    requires
        scheduled.shiftable(),
        now.total_nanos() < scheduled.total_nanos() + nanos_per_day(),
        daily_due(end, activity_nanos, now, scheduled) is Err,
    ensures
        ({
            let d = daily_due(end, activity_nanos, now, scheduled)->Err_0;
            &&& d is NotDueDateTime
            &&& d.spec_next_due(now, today)->0 > 0
        }),
{
}

/// An older last backup (with the same outcome), or longer use, never turns
/// a backup that is due into one that is not.
pub proof fn lemma_due_is_monotone(
    frequency: Frequency,
    running: bool,
    newer: LastRun,
    older: LastRun,
    less_use: u128,
    more_use: u128,
    clock: Clock,
)
    requires
        older.end.total_nanos() <= newer.end.total_nanos(),
        older.end_day.days_from_ce <= newer.end_day.days_from_ce,
        older.succeeded == newer.succeeded,
        less_use <= more_use,
        due(frequency, RunHistory { running, last_run: Some(newer) }, less_use, clock) is Ok,
    ensures
        due(frequency, RunHistory { running, last_run: Some(older) }, more_use, clock) is Ok,
{
}

/// Which global requirements are violated follows the conditions one by one:
/// a metered connection is listed exactly when the network is metered and
/// the repository's host is known not to be the local machine, running on
/// battery exactly when the system is known to run on battery, and no
/// running backup is listed while none runs on the repository.
pub proof fn lemma_global_requirements_follow_conditions(
    config_id: Seq<char>,
    repo: Seq<char>,
    running: Seq<RunningBackup>,
    network_metered: bool,
    host_local: Option<bool>,
    on_battery: Option<bool>,
)
    ensures
        ({
            let r = global_requirements(
                config_id,
                repo,
                running,
                network_metered,
                host_local,
                on_battery,
            );
            &&& r.contains(Global::MeteredConnection) <==> (network_metered && host_local == Some(
                false,
            ))
            &&& r.contains(Global::OnBattery) <==> on_battery == Some(true)
            &&& (forall|j: int| 0 <= j < running.len() ==> !runs_on_repo(#[trigger] running[j], repo))
                ==> forall|k: int|
                0 <= k < r.len() ==> !(#[trigger] r[k] is ThisBackupRunning) && !(r[k] is OtherBackupRunning)
        }),
{
    let a = running_requirements(config_id, repo, running);
    let m = if network_metered && host_local == Some(false) {
        seq![Global::MeteredConnection]
    } else {
        seq![]
    };
    let b = if on_battery == Some(true) {
        seq![Global::OnBattery]
    } else {
        seq![]
    };
    let r = global_requirements(config_id, repo, running, network_metered, host_local, on_battery);
    assert(r == a + m + b);
    assert(a.len() <= 1);
    assert(forall|k: int|
        0 <= k < a.len() ==> #[trigger] a[k] is ThisBackupRunning || a[k] is OtherBackupRunning);
    assert forall|k: int| 0 <= k < r.len() implies #[trigger] r[k] == (if k < a.len() {
        a[k]
    } else if k < a.len() + m.len() {
        m[k - a.len()]
    } else {
        b[k - a.len() - m.len()]
    }) by {}
    if r.contains(Global::MeteredConnection) {
        let k = choose|k: int| 0 <= k < r.len() && r[k] == Global::MeteredConnection;
        assert(r[k] == Global::MeteredConnection);
    }
    if network_metered && host_local == Some(false) {
        assert(r[a.len() as int] == Global::MeteredConnection);
    }
    if r.contains(Global::OnBattery) {
        let k = choose|k: int| 0 <= k < r.len() && r[k] == Global::OnBattery;
        assert(r[k] == Global::OnBattery);
    }
    if on_battery == Some(true) {
        assert(r[(a.len() + m.len()) as int] == Global::OnBattery);
    }
    if forall|j: int| 0 <= j < running.len() ==> !runs_on_repo(#[trigger] running[j], repo) {
        assert(!exists|i: int| is_first_on_repo(running, repo, i));
        assert(a.len() == 0);
    }
}

/// The hints follow the conditions one by one: a missing device is hinted
/// exactly when the repository's drive is known to be disconnected, and a
/// missing network exactly when the repository is reached over the network
/// and the network is unavailable.
pub proof fn lemma_hints_follow_conditions(
    drive_connected: Option<bool>,
    is_network: bool,
    network_available: bool,
)
    ensures
        ({
            let r = hints(drive_connected, is_network, network_available);
            &&& r.contains(Hint::DeviceMissing) <==> drive_connected == Some(false)
            &&& r.contains(Hint::NetworkMissing) <==> (is_network && !network_available)
            &&& r.len() <= 2
        }),
{
    let d = if drive_connected == Some(false) {
        seq![Hint::DeviceMissing]
    } else {
        seq![]
    };
    let n = if is_network && !network_available {
        seq![Hint::NetworkMissing]
    } else {
        seq![]
    };
    let r = hints(drive_connected, is_network, network_available);
    assert(r == d + n);
    assert forall|k: int| 0 <= k < r.len() implies #[trigger] r[k] == (if k < d.len() {
        d[k]
    } else {
        n[k - d.len()]
    }) by {}
    if r.contains(Hint::DeviceMissing) {
        let k = choose|k: int| 0 <= k < r.len() && r[k] == Hint::DeviceMissing;
        assert(r[k] == Hint::DeviceMissing);
    }
    if drive_connected == Some(false) {
        assert(r[0] == Hint::DeviceMissing);
    }
    if r.contains(Hint::NetworkMissing) {
        let k = choose|k: int| 0 <= k < r.len() && r[k] == Hint::NetworkMissing;
        assert(r[k] == Hint::NetworkMissing);
    }
    if is_network && !network_available {
        assert(r[d.len() as int] == Hint::NetworkMissing);
    }
}

/// The daily rule at today's preferred time `scheduled`, with a day of
/// 86 400 s: past the preferred time with no backup since it, a regular
/// backup is due; with no backup after the preferred time of the day before
/// and the system used long enough, a catch-up backup is due; with a backup
/// after the preferred time of the day before, the backup waits for today's
/// preferred time while that lies ahead, however long the system was used;
/// and with the system used too little, only the regular backup is due, and
/// otherwise the answer is today's preferred time or, once it has passed,
/// the same time a day later.
pub proof fn lemma_daily_rule(end: Moment, activity_nanos: u128, now: Moment, scheduled: Moment)
    requires
        scheduled.shiftable(),
    ensures
        end.total_nanos() < scheduled.total_nanos() < now.total_nanos() ==> daily_due(
            end,
            activity_nanos,
            now,
            scheduled,
        ) == Ok::<(), Due>(()),
        end.total_nanos() < scheduled.total_nanos() - 86_400_000_000_000 && activity_nanos
            >= USED_THRESHOLD_NANOS ==> daily_due(end, activity_nanos, now, scheduled) == Ok::<
            (),
            Due,
        >(()),
        end.total_nanos() >= scheduled.total_nanos() - 86_400_000_000_000 && now.total_nanos()
            < scheduled.total_nanos() ==> daily_due(end, activity_nanos, now, scheduled) == Err::<
            (),
            Due,
        >(Due::NotDueDateTime { next: scheduled }),
        activity_nanos < USED_THRESHOLD_NANOS && !(end.total_nanos() < scheduled.total_nanos()
            < now.total_nanos()) ==> (daily_due(end, activity_nanos, now, scheduled) matches Err(
            Due::NotDueDateTime { next },
        ) && next.total_nanos() == (if now.total_nanos() < scheduled.total_nanos() {
            scheduled.total_nanos()
        } else {
            scheduled.total_nanos() + 86_400_000_000_000
        })),
{
    assert(scheduled.spec_shifted(-SECS_PER_DAY).total_nanos() == scheduled.total_nanos()
        - 86_400_000_000_000);
    assert(scheduled.spec_shifted(SECS_PER_DAY as int).total_nanos() == scheduled.total_nanos()
        + 86_400_000_000_000);
}

/// The weekly rule after a backup that succeeded: never due on a day whose
/// weekday is not the preferred one, and the day it names never lies before
/// today. Before the preferred weekday in the week (counted from Sunday) the
/// answer is the coming preferred weekday; on the preferred weekday the
/// backup is due exactly when no backup exists from that day on and the
/// system was used long enough, and otherwise waits a week.
pub proof fn lemma_weekly_rule(last: LastRun, activity_nanos: u128, today: Day, preferred: Weekday)
    requires
        today.in_range(),
        last.succeeded,
    ensures
        ({
            let wd = today.spec_weekday_from_sunday();
            let p = preferred.spec_number_from_sunday();
            let r = weekly_due(last, activity_nanos, today, preferred);
            &&& wd != p ==> (r matches Err(Due::NotDueDate { next }) && next.days_from_ce
                > today.days_from_ce)
            &&& wd < p ==> r == Err::<(), Due>(
                Due::NotDueDate { next: Day { days_from_ce: (today.days_from_ce + (p - wd)) as i32 } },
            )
            &&& wd < p ==> (r matches Err(Due::NotDueDate { next })
                && next.days_from_ce == today.days_from_ce + (p - wd)
                && next.spec_weekday_from_sunday() == p)
            &&& wd == p ==> (r is Ok <==> (last.end_day.days_from_ce < today.days_from_ce
                && activity_nanos >= USED_THRESHOLD_NANOS))
            &&& (wd == p && r is Err) ==> (r matches Err(Due::NotDueDate { next })
                && next.days_from_ce == today.days_from_ce + 7
                && next.spec_weekday_from_sunday() == p)
        }),
{
    let d = today.days_from_ce as int;
    let wd = today.spec_weekday_from_sunday();
    let p = preferred.spec_number_from_sunday();
    assert(1 <= wd <= 7);
    if wd < p {
        let k = p - wd;
        assert((d + k) % 7 == d % 7 + k) by (nonlinear_arith)
            requires
                0 <= d % 7 + k < 7,
                0 <= k,
        ;
    }
    if wd == p {
        assert((d + 7) % 7 == d % 7) by (nonlinear_arith);
    }
}

/// The wait for a day is the whole distance to it in days of 86 400 s,
/// however far the day lies: seen a day later, the wait is a day shorter,
/// and on the day itself there is none. The wait for a moment is the time
/// to it: seen later, it is shorter by the time that passed.
pub proof fn lemma_waits(
    next_day: Day,
    today: Day,
    other_day: Day,
    next: Moment,
    now: Moment,
    other_now: Moment,
)
    ensures
        ({
            let by_day = Due::NotDueDate { next: next_day };
            let by_moment = Due::NotDueDateTime { next };
            &&& by_day.spec_next_due(now, today) == Some(
                (next_day.days_from_ce - today.days_from_ce) * 86_400_000_000_000,
            )
            &&& by_day.spec_next_due(now, today)->0 - by_day.spec_next_due(other_now, other_day)->0
                == (other_day.days_from_ce - today.days_from_ce) * 86_400_000_000_000
            &&& by_day.spec_next_due(now, next_day) == Some(0int)
            &&& by_moment.spec_next_due(now, today) == Some(next.total_nanos() - now.total_nanos())
            &&& by_moment.spec_next_due(now, today)->0 - by_moment.spec_next_due(other_now, other_day)->0
                == other_now.total_nanos() - now.total_nanos()
            &&& by_moment.spec_next_due(next, today) == Some(0int)
        }),
{
    let a = next_day.days_from_ce - today.days_from_ce;
    let b = next_day.days_from_ce - other_day.days_from_ce;
    assert(a * 86_400_000_000_000 - b * 86_400_000_000_000 == (a - b) * 86_400_000_000_000)
        by (nonlinear_arith);
}

/// The hourly rule, with an hour of 3 600 s: due exactly when the last
/// backup ended more than an hour ago and the system was used for more than
/// the threshold; otherwise the answer is the moment an hour after the last
/// backup ended.
pub proof fn lemma_hourly_rule(end: Moment, activity_nanos: u128, now: Moment)
    requires
        end.shiftable(),
    ensures
        hourly_due(end, activity_nanos, now) is Ok <==> (now.total_nanos() - end.total_nanos()
            > 3_600_000_000_000 && activity_nanos > USED_THRESHOLD_NANOS),
        hourly_due(end, activity_nanos, now) is Err ==> (hourly_due(
            end,
            activity_nanos,
            now,
        ) matches Err(Due::NotDueDateTime { next }) && next.total_nanos() == end.total_nanos()
            + 3_600_000_000_000),
{
    assert(end.spec_shifted(SECS_PER_HOUR as int).total_nanos() == end.total_nanos()
        + 3_600_000_000_000);
}

/// The monthly rule after a backup that succeeded, given this month's
/// scheduled day and that day a month before and after: due from the
/// scheduled day on while no backup exists since it, and likewise from the
/// scheduled day a month before; with a backup since the scheduled day, the
/// answer is the scheduled day a month later, and before the scheduled day,
/// with a backup since the month before's, the scheduled day itself.
pub proof fn lemma_monthly_rule(
    last: LastRun,
    today: Day,
    scheduled: Day,
    previous: Day,
    following: Day,
)
    requires
        last.succeeded,
        previous.days_from_ce <= scheduled.days_from_ce,
    ensures
        ({
            let r = monthly_due(last, today, scheduled, previous, following);
            let t = today.days_from_ce;
            let e = last.end_day.days_from_ce;
            &&& (t >= scheduled.days_from_ce && e < scheduled.days_from_ce) ==> r is Ok
            &&& (t >= previous.days_from_ce && e < previous.days_from_ce) ==> r is Ok
            &&& (t >= scheduled.days_from_ce && e >= scheduled.days_from_ce) ==> r == Err::<(), Due>(
                Due::NotDueDate { next: following },
            )
            &&& (t < scheduled.days_from_ce && !(t >= previous.days_from_ce && e
                < previous.days_from_ce)) ==> r == Err::<(), Due>(Due::NotDueDate { next: scheduled })
        }),
{
}

/// The running backup that keeps a backup from starting is the first one
/// that runs on the same repository: it is listed as this backup exactly
/// where that one is this configuration's, and as another backup only with
/// the identifier of a different configuration whose backup runs on the
/// repository.
pub proof fn lemma_running_backup_listed(
    config_id: Seq<char>,
    repo: Seq<char>,
    running: Seq<RunningBackup>,
    network_metered: bool,
    host_local: Option<bool>,
    on_battery: Option<bool>,
)
    ensures
        ({
            let r = global_requirements(
                config_id,
                repo,
                running,
                network_metered,
                host_local,
                on_battery,
            );
            &&& r.contains(Global::ThisBackupRunning) <==> exists|i: int|
                is_first_on_repo(running, repo, i) && (#[trigger] running[i]).config_id@ == config_id
            &&& forall|k: int|
                0 <= k < r.len() && #[trigger] r[k] is OtherBackupRunning ==> exists|i: int|
                    0 <= i < running.len() && runs_on_repo(#[trigger] running[i], repo)
                        && running[i].config_id == r[k]->OtherBackupRunning_0
                        && running[i].config_id@ != config_id
        }),
{
    let a = running_requirements(config_id, repo, running);
    let m = if network_metered && host_local == Some(false) {
        seq![Global::MeteredConnection]
    } else {
        seq![]
    };
    let b = if on_battery == Some(true) {
        seq![Global::OnBattery]
    } else {
        seq![]
    };
    let r = global_requirements(config_id, repo, running, network_metered, host_local, on_battery);
    assert(r == a + m + b);
    assert forall|k: int| 0 <= k < r.len() implies #[trigger] r[k] == (if k < a.len() {
        a[k]
    } else if k < a.len() + m.len() {
        m[k - a.len()]
    } else {
        b[k - a.len() - m.len()]
    }) by {}
    if exists|i: int| is_first_on_repo(running, repo, i) {
        let i = choose|i: int| is_first_on_repo(running, repo, i);
        assert forall|i0: int| #[trigger] is_first_on_repo(running, repo, i0) implies i0 == i by {
            lemma_first_on_repo_unique(running, repo, i0, i);
        }
        if running[i].config_id@ == config_id {
            assert(r[0] == Global::ThisBackupRunning);
        } else {
            assert(r[0] == Global::OtherBackupRunning(running[i].config_id));
            if r.contains(Global::ThisBackupRunning) {
                let k = choose|k: int| 0 <= k < r.len() && r[k] == Global::ThisBackupRunning;
                assert(r[k] == Global::ThisBackupRunning);
            }
        }
        assert forall|k: int|
            0 <= k < r.len() && #[trigger] r[k] is OtherBackupRunning implies exists|i1: int|
                0 <= i1 < running.len() && runs_on_repo(#[trigger] running[i1], repo)
                    && running[i1].config_id == r[k]->OtherBackupRunning_0
                    && running[i1].config_id@ != config_id by {
            assert(k == 0);
            assert(running[i].config_id@ != config_id);
        }
    } else {
        assert(a.len() == 0);
        if r.contains(Global::ThisBackupRunning) {
            let k = choose|k: int| 0 <= k < r.len() && r[k] == Global::ThisBackupRunning;
            assert(r[k] == Global::ThisBackupRunning);
        }
    }
}

/// What [`Due::check`] answers after a last backup, by frequency: an hourly
/// backup is due exactly after more than an hour of 3 600 s with the system
/// used for more than the threshold; a daily one waits for today's
/// preferred time, whatever the use, while that lies ahead and a backup
/// ended at or after the preferred time of the day before; and a weekly one
/// after a backup that succeeded is never due on a day whose weekday is not
/// the preferred one, and names a later day.
pub proof fn lemma_check_follows_rules(
    frequency: Frequency,
    history: RunHistory,
    last: LastRun,
    activity_nanos: u128,
    clock: Clock,
)
    requires
        !history.running,
        history.last_run == Some(last),
        check_inputs_valid(frequency, history, clock),
    ensures
        ({
            let r = due(frequency, history, activity_nanos, clock);
            let now = clock.now.total_nanos();
            let s = clock.preferred_time_today.unwrap();
            &&& frequency is Hourly ==> (r is Ok <==> (now - last.end.total_nanos() > 3_600_000_000_000
                && activity_nanos > USED_THRESHOLD_NANOS))
            &&& (frequency is Daily && last.end.total_nanos() >= s.total_nanos()
                - 86_400_000_000_000 && now < s.total_nanos()) ==> r == Err::<(), Due>(
                Due::NotDueDateTime { next: s },
            )
            &&& (frequency is Weekly && last.succeeded && clock.today.spec_weekday_from_sunday()
                != frequency->preferred_weekday.spec_number_from_sunday()) ==> (r matches Err(
                Due::NotDueDate { next },
            ) && next.days_from_ce > clock.today.days_from_ce)
        }),
{
    match frequency {
        Frequency::Hourly => {
            lemma_hourly_rule(last.end, activity_nanos, clock.now);
        },
        Frequency::Daily { .. } => {
            lemma_daily_rule(
                last.end,
                activity_nanos,
                clock.now,
                clock.preferred_time_today.unwrap(),
            );
        },
        Frequency::Weekly { preferred_weekday } => {
            if last.succeeded {
                lemma_weekly_rule(last, activity_nanos, clock.today, preferred_weekday);
            }
        },
        Frequency::Monthly { .. } => {},
    }
}

} // verus!
