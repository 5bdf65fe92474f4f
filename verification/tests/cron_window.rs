use rustaria::config::Config;
use rustaria::scheduler::cron::{cron_matches, CalendarTime};
use rustaria::scheduler::policy::Policy;
use rustaria::scheduler::Scheduler;

fn at(minute: u32, hour: u32, day: u32, month: u32, weekday: u32) -> CalendarTime {
    CalendarTime { minute, hour, day, month, weekday }
}

#[test]
fn every_minute_and_fixed_times() {
    assert!(cron_matches("* * * * *", &at(17, 5, 3, 7, 1)));
    assert!(cron_matches("0 22 * * *", &at(0, 22, 1, 1, 0)));
    assert!(!cron_matches("0 22 * * *", &at(1, 22, 1, 1, 0)));
    assert!(!cron_matches("0 22 * * *", &at(0, 21, 1, 1, 0)));
}

#[test]
fn impossible_date_never_matches() {
    for month in 1..=12 {
        for day in 1..=31 {
            if month == 2 && day > 29 {
                continue;
            }
            for wd in 0..7 {
                assert!(!cron_matches("0 0 31 2 *", &at(0, 0, day, month, wd)));
            }
        }
    }
}

#[test]
fn ranges_lists_and_steps() {
    let night = "* 0-6 * * *";
    assert!(cron_matches(night, &at(59, 0, 9, 9, 3)));
    assert!(cron_matches(night, &at(0, 6, 9, 9, 3)));
    assert!(!cron_matches(night, &at(0, 7, 9, 9, 3)));
    let quarters = "*/15 * * * *";
    for m in 0..60 {
        assert_eq!(cron_matches(quarters, &at(m, 1, 1, 1, 1)), m % 15 == 0, "{}", m);
    }
    let odd = "1-59/2 8,12,18 * * *";
    assert!(cron_matches(odd, &at(3, 12, 1, 1, 1)));
    assert!(!cron_matches(odd, &at(4, 12, 1, 1, 1)));
    assert!(!cron_matches(odd, &at(3, 13, 1, 1, 1)));
    assert!(cron_matches("  0   9\t* * 1-5 ", &at(0, 9, 5, 5, 5)));
}

#[test]
fn weekdays_and_month_days() {
    // Sunday may be written 0 or 7.
    assert!(cron_matches("* * * * 7", &at(0, 0, 1, 1, 0)));
    assert!(cron_matches("* * * * 0", &at(0, 0, 1, 1, 0)));
    assert!(!cron_matches("* * * * 7", &at(0, 0, 1, 1, 6)));
    // Weekdays only, any day of the month.
    assert!(cron_matches("* * * * 1-5", &at(0, 0, 13, 6, 3)));
    assert!(!cron_matches("* * * * 1-5", &at(0, 0, 13, 6, 6)));
    // Both day fields restricted: either suffices.
    let either = "0 0 1 * 1";
    assert!(cron_matches(either, &at(0, 0, 1, 6, 4)));
    assert!(cron_matches(either, &at(0, 0, 8, 6, 1)));
    assert!(!cron_matches(either, &at(0, 0, 8, 6, 4)));
    // Day of month with `*` weekday: both must hold, which `*` always does.
    assert!(cron_matches("0 0 1 * *", &at(0, 0, 1, 6, 4)));
    assert!(!cron_matches("0 0 1 * *", &at(0, 0, 2, 6, 4)));
}

#[test]
fn malformed_expressions_match_nothing() {
    let t = at(0, 0, 1, 1, 1);
    for bad in [
        "", "* * * *", "* * * * * *", "60 * * * *", "* 24 * * *", "* * 0 * *", "* * * 13 *",
        "* * * * 8", "5-1 * * * *", "*/0 * * * *", "a * * * *", "1,,2 * * * *", "1-2-3 * * * *",
        "*/ * * * *", "1/2/3 * * * *", "** * * * *",
    ] {
        assert!(!cron_matches(bad, &t), "{:?}", bad);
    }
}

#[test]
fn scheduler_window_follows_the_clock() {
    let mut config = Config::default();
    config.scheduler.enabled = true;
    config.scheduler.active_window = Some("* 0-6 * * *".to_string());
    let mut s = Scheduler::new(&config).unwrap();
    s.update_window(&at(30, 12, 1, 1, 1));
    assert_eq!(s.slots_to_fill(0), 0);
    s.update_window(&at(30, 2, 1, 1, 1));
    assert_eq!(s.slots_to_fill(0), 5);
    // Without scheduling, the window does not matter.
    let mut p = Policy::default();
    p.active_window = Some("0 0 31 2 *".to_string());
    p.update_window(&at(30, 12, 1, 1, 1));
    assert!(p.is_active_window());
    p.enabled = true;
    assert!(!p.is_active_window());
}
