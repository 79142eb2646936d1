use chrono::{Datelike, NaiveDate, Weekday as ChronoWeekday};
use pika_backup::borg::json::RepoId;
use pika_backup::config::{ConfigId, Frequency, Weekday};
use pika_backup::schedule::requirements::{
    Clock, Due, Global, Hint, LastRun, RunHistory, RunningBackup,
};
use pika_backup::schedule::USED_THRESHOLD_NANOS;
use pika_backup::time::{Day, Moment, SECS_PER_DAY, SECS_PER_HOUR};

fn day(y: i32, m: u32, d: u32) -> Day {
    Day {
        days_from_ce: NaiveDate::from_ymd_opt(y, m, d).unwrap().num_days_from_ce(),
    }
}

fn at(secs: i64) -> Moment {
    Moment { secs, nanos: 0 }
}

fn clock(now: i64, today: Day) -> Clock {
    Clock {
        now: at(now),
        today,
        preferred_time_today: None,
    }
}

fn ran(end: i64, end_day: Day) -> RunHistory {
    RunHistory {
        running: false,
        last_run: Some(LastRun {
            end: at(end),
            end_day,
            succeeded: true,
        }),
    }
}

fn failed(end: i64, end_day: Day) -> RunHistory {
    RunHistory {
        running: false,
        last_run: Some(LastRun {
            end: at(end),
            end_day,
            succeeded: false,
        }),
    }
}

const USED: u128 = USED_THRESHOLD_NANOS;

#[test]
fn weekday_numbers_agree_with_chrono() {
    let mut date = NaiveDate::from_ymd_opt(1999, 12, 20).unwrap();
    for _ in 0..30 {
        let d = Day {
            days_from_ce: date.num_days_from_ce(),
        };
        assert_eq!(d.weekday_from_sunday(), date.weekday().number_from_sunday());
        date = date.succ_opt().unwrap();
    }
    let first = Day { days_from_ce: 1 };
    assert_eq!(first.weekday_from_sunday(), ChronoWeekday::Mon.number_from_sunday());
    let before = Day { days_from_ce: -3 };
    assert_eq!(
        before.weekday_from_sunday(),
        NaiveDate::from_num_days_from_ce_opt(-3)
            .unwrap()
            .weekday()
            .number_from_sunday()
    );
}

#[test]
fn preferred_weekday_numbers() {
    assert_eq!(Weekday::Sun.number_from_sunday(), 1);
    assert_eq!(Weekday::Mon.number_from_sunday(), 2);
    assert_eq!(Weekday::Sat.number_from_sunday(), 7);
}

#[test]
fn moments_compare_and_shift() {
    let a = Moment { secs: 10, nanos: 5 };
    let b = Moment { secs: 10, nanos: 6 };
    assert!(a.is_before(b));
    assert!(!b.is_before(a));
    assert!(!a.is_before(a));
    assert_eq!(b.nanos_since(a), 1);
    assert_eq!(a.nanos_since(Moment { secs: 12, nanos: 0 }), -1_999_999_995);
    assert_eq!(a.shifted(SECS_PER_HOUR), Moment { secs: 3610, nanos: 5 });
    assert_eq!(a.shifted(-SECS_PER_DAY), Moment { secs: 10 - 86400, nanos: 5 });
}

#[test]
fn running_backup_is_never_due() {
    let history = RunHistory {
        running: true,
        last_run: None,
    };
    let r = Due::check(&Frequency::Hourly, &history, 0, &clock(0, day(2024, 1, 1)));
    assert_eq!(r, Err(Due::Running));
    assert_eq!(Due::Running.next_due(at(0), day(2024, 1, 1)), None);
}

#[test]
fn never_ran_is_due() {
    let history = RunHistory {
        running: false,
        last_run: None,
    };
    let f = Frequency::Weekly {
        preferred_weekday: Weekday::Mon,
    };
    assert_eq!(Due::check(&f, &history, 0, &clock(0, day(2024, 1, 1))), Ok(()));
}

#[test]
fn hourly_schedule() {
    let today = day(2024, 1, 1);
    let end = 1_000_000;
    // more than an hour ago, used more than the threshold
    assert_eq!(
        Due::check(&Frequency::Hourly, &ran(end, today), USED + 1, &clock(end + 3601, today)),
        Ok(())
    );
    // exactly an hour ago is not more than an hour
    assert_eq!(
        Due::check(&Frequency::Hourly, &ran(end, today), USED + 1, &clock(end + 3600, today)),
        Err(Due::NotDueDateTime {
            next: at(end + 3600)
        })
    );
    // less than an hour ago
    let r = Due::check(&Frequency::Hourly, &ran(end, today), USED + 1, &clock(end + 3599, today));
    assert_eq!(
        r,
        Err(Due::NotDueDateTime {
            next: at(end + 3600)
        })
    );
    assert_eq!(
        r.unwrap_err().next_due(at(end + 3599), today),
        Some(1_000_000_000)
    );
    // used exactly the threshold, which is not more than it
    assert_eq!(
        Due::check(
            &Frequency::Hourly,
            &ran(end, today),
            USED,
            &clock(end + 7200, today)
        ),
        Err(Due::NotDueDateTime {
            next: at(end + 3600)
        })
    );
    // a nanosecond past an hour
    let past = Clock {
        now: Moment {
            secs: end + 3600,
            nanos: 1,
        },
        today,
        preferred_time_today: None,
    };
    assert!(Due::check(&Frequency::Hourly, &ran(end, today), USED + 1, &past).is_ok());
}

fn daily() -> Frequency {
    Frequency::Daily {
        preferred_time: chrono::NaiveTime::from_hms_opt(10, 0, 0).unwrap(),
    }
}

#[test]
fn daily_schedule() {
    let today = day(2024, 3, 5);
    let scheduled = 2_000_000;
    let c = |now: i64| Clock {
        now: at(now),
        today,
        preferred_time_today: Some(at(scheduled)),
    };
    // regular backup: last one before today's preferred time, which has passed
    assert_eq!(
        Due::check(&daily(), &ran(scheduled - 10, today), 0, &c(scheduled + 1)),
        Ok(())
    );
    // preferred time not yet reached, last backup yesterday after the preferred time
    let r = Due::check(&daily(), &ran(scheduled - 100, today), 0, &c(scheduled - 1));
    assert_eq!(r, Err(Due::NotDueDateTime { next: at(scheduled) }));
    assert_eq!(r.unwrap_err().next_due(at(scheduled - 1), today), Some(1_000_000_000));
    // catch-up: no backup since yesterday's preferred time, and the system was used
    assert_eq!(
        Due::check(
            &daily(),
            &ran(scheduled - SECS_PER_DAY - 1, today),
            USED,
            &c(scheduled - 1)
        ),
        Ok(())
    );
    // same, but the system was not used enough
    assert_eq!(
        Due::check(
            &daily(),
            &ran(scheduled - SECS_PER_DAY - 1, today),
            USED - 1,
            &c(scheduled - 1)
        ),
        Err(Due::NotDueDateTime { next: at(scheduled) })
    );
    // already ran after today's preferred time: next is tomorrow
    assert_eq!(
        Due::check(&daily(), &ran(scheduled + 5, today), USED, &c(scheduled + 10)),
        Err(Due::NotDueDateTime {
            next: at(scheduled + SECS_PER_DAY)
        })
    );
}

#[test]
fn weekly_schedule() {
    // 2024-03-04 is a Monday
    let monday = day(2024, 3, 4);
    let mon = Frequency::Weekly {
        preferred_weekday: Weekday::Mon,
    };
    let last_week = day(2024, 2, 26);
    // on the preferred day, last backup earlier, system used
    assert_eq!(
        Due::check(&mon, &ran(0, last_week), USED, &clock(0, monday)),
        Ok(())
    );
    // on the preferred day but not used enough: a week later
    let r = Due::check(&mon, &ran(0, last_week), USED - 1, &clock(0, monday));
    assert_eq!(
        r,
        Err(Due::NotDueDate {
            next: day(2024, 3, 11)
        })
    );
    assert_eq!(
        r.unwrap_err().next_due(at(0), monday),
        Some(7 * 86_400_000_000_000)
    );
    // already ran today: a week later
    assert_eq!(
        Due::check(&mon, &ran(0, monday), USED, &clock(0, monday)),
        Err(Due::NotDueDate {
            next: day(2024, 3, 11)
        })
    );
    // on a Thursday with Monday preferred: the day three days ahead
    let thursday = day(2024, 3, 7);
    assert_eq!(
        Due::check(&mon, &ran(0, last_week), USED, &clock(0, thursday)),
        Err(Due::NotDueDate {
            next: day(2024, 3, 10)
        })
    );
}

#[test]
fn monthly_schedule() {
    let f = Frequency::Monthly { preferred_day: 15 };
    // past the 15th, last backup in the previous month
    assert_eq!(
        Due::check(&f, &ran(0, day(2024, 2, 20)), 0, &clock(0, day(2024, 3, 16))),
        Ok(())
    );
    // past the 15th, already ran after it
    assert_eq!(
        Due::check(&f, &ran(0, day(2024, 3, 15)), 0, &clock(0, day(2024, 3, 16))),
        Err(Due::NotDueDate {
            next: day(2024, 4, 15)
        })
    );
    // before the 15th, and the last month's run happened after its 15th
    assert_eq!(
        Due::check(&f, &ran(0, day(2024, 2, 16)), 0, &clock(0, day(2024, 3, 10))),
        Err(Due::NotDueDate {
            next: day(2024, 3, 15)
        })
    );
    // before the 15th, and no run since the last month's 15th: retried
    assert_eq!(
        Due::check(&f, &ran(0, day(2024, 2, 14)), 0, &clock(0, day(2024, 3, 10))),
        Ok(())
    );
    // a preferred day that February lacks: today is taken, next month shifted
    let f31 = Frequency::Monthly { preferred_day: 31 };
    assert_eq!(
        Due::check(&f31, &ran(0, day(2024, 2, 10)), 0, &clock(0, day(2024, 2, 10))),
        Err(Due::NotDueDate {
            next: day(2024, 3, 10)
        })
    );
}

#[test]
fn monthly_rule_on_given_days() {
    let today = day(2024, 5, 20);
    let last = |d: Day| LastRun {
        end: at(0),
        end_day: d,
        succeeded: true,
    };
    let r = Due::check_monthly(
        last(day(2024, 5, 1)),
        today,
        day(2024, 5, 10),
        day(2024, 4, 10),
        day(2024, 6, 10),
    );
    assert_eq!(r, Ok(()));
    let r = Due::check_monthly(
        last(day(2024, 5, 12)),
        today,
        day(2024, 5, 10),
        day(2024, 4, 10),
        day(2024, 6, 10),
    );
    assert_eq!(
        r,
        Err(Due::NotDueDate {
            next: day(2024, 6, 10)
        })
    );
}

fn cid(s: &str) -> ConfigId {
    ConfigId::new(s.to_string())
}

fn rid(s: &str) -> RepoId {
    RepoId::new(s.to_string())
}

#[test]
fn global_requirements() {
    let running = vec![
        RunningBackup {
            config_id: cid("a"),
            repo_id: Some(rid("r1")),
        },
        RunningBackup {
            config_id: cid("b"),
            repo_id: Some(rid("r2")),
        },
        RunningBackup {
            config_id: cid("c"),
            repo_id: Some(rid("r2")),
        },
    ];
    let v = Global::check(&cid("b"), &rid("r2"), &running, false, None, None);
    assert_eq!(v.len(), 1);
    assert!(matches!(v[0], Global::ThisBackupRunning));

    let v = Global::check(&cid("c"), &rid("r2"), &running, true, Some(false), Some(true));
    assert_eq!(v.len(), 3);
    match &v[0] {
        Global::OtherBackupRunning(id) => assert_eq!(id.as_str(), "b"),
        other => panic!("unexpected {:?}", other),
    }
    assert!(matches!(v[1], Global::MeteredConnection));
    assert!(matches!(v[2], Global::OnBattery));

    let v = Global::check(&cid("d"), &rid("r3"), &running, true, Some(true), Some(false));
    assert!(v.is_empty());
    let v = Global::check(&cid("d"), &rid("r3"), &running, true, None, None);
    assert!(v.is_empty());
}

#[test]
fn hints() {
    assert_eq!(
        Hint::check(Some(false), true, false),
        vec![Hint::DeviceMissing, Hint::NetworkMissing]
    );
    assert_eq!(Hint::check(Some(true), true, true), vec![]);
    assert_eq!(Hint::check(None, false, false), vec![]);
}

#[test]
fn failed_weekly_backup_is_retried_the_next_day() {
    let monday = day(2024, 3, 4);
    let tuesday = day(2024, 3, 5);
    let mon = Frequency::Weekly {
        preferred_weekday: Weekday::Mon,
    };
    // it failed on Monday: Tuesday retries once the system was used
    assert_eq!(
        Due::check(&mon, &failed(0, monday), USED, &clock(0, tuesday)),
        Ok(())
    );
    // not used enough yet: wait for tomorrow
    assert_eq!(
        Due::check(&mon, &failed(0, monday), USED - 1, &clock(0, tuesday)),
        Err(Due::NotDueDate {
            next: day(2024, 3, 6)
        })
    );
    // on the day of the failure: retried the next day
    assert_eq!(
        Due::check(&mon, &failed(0, monday), USED, &clock(0, monday)),
        Err(Due::NotDueDate { next: tuesday })
    );
    // a successful run on Monday is not retried; the weekly rule looks
    // ahead by the distance between the weekdays
    assert_eq!(
        Due::check(&mon, &ran(0, monday), USED, &clock(0, tuesday)),
        Err(Due::NotDueDate {
            next: day(2024, 3, 6)
        })
    );
}

#[test]
fn failed_monthly_backup_is_retried_the_next_day() {
    let f = Frequency::Monthly { preferred_day: 15 };
    assert_eq!(
        Due::check(&f, &failed(0, day(2024, 3, 15)), 0, &clock(0, day(2024, 3, 16))),
        Ok(())
    );
    assert_eq!(
        Due::check(&f, &failed(0, day(2024, 3, 16)), 0, &clock(0, day(2024, 3, 16))),
        Err(Due::NotDueDate {
            next: day(2024, 3, 17)
        })
    );
}

#[test]
fn monthly_answer_lies_ahead_at_the_end_of_a_month() {
    // preferred on the 1st, asked on the 31st after a backup on the 1st
    let f = Frequency::Monthly { preferred_day: 1 };
    let today = day(2024, 3, 31);
    let r = Due::check(&f, &ran(0, day(2024, 3, 1)), 0, &clock(0, today));
    assert_eq!(r, Err(Due::NotDueDate { next: day(2024, 4, 1) }));
    assert_eq!(r.unwrap_err().next_due(at(0), today), Some(86_400_000_000_000));
}

#[test]
fn older_backup_and_more_use_keep_a_backup_due() {
    let monday = day(2024, 3, 4);
    let mon = Frequency::Weekly {
        preferred_weekday: Weekday::Mon,
    };
    let last_week = day(2024, 2, 26);
    assert_eq!(
        Due::check(&mon, &ran(0, last_week), USED, &clock(0, monday)),
        Ok(())
    );
    assert_eq!(
        Due::check(&mon, &ran(0, day(2024, 2, 19)), USED + 1, &clock(0, monday)),
        Ok(())
    );
    // half a second of use above the threshold counts for the hourly rule
    let today = day(2024, 1, 1);
    assert_eq!(
        Due::check(
            &Frequency::Hourly,
            &ran(0, today),
            USED + 500_000_000,
            &clock(7200, today)
        ),
        Ok(())
    );
}
