use chrono::{Datelike, Local, Timelike};
use scheduler::{Command, Moment, Period, Plan, Scheduler};

fn add(num: i32) -> String {
    format!("result, {}!", num + 1)
}

fn local_moment() -> Moment {
    let t = Local::now();
    Moment {
        stamp_millis: t.timestamp_millis(),
        year: t.year(),
        month: t.month(),
        day: t.day(),
        hour: t.hour(),
        minute: t.minute(),
        second: t.second(),
    }
}

fn at(hour: u32, minute: u32, second: u32) -> Moment {
    Moment { stamp_millis: 0, year: 2024, month: 5, day: 17, hour, minute, second }
}

/// Plays the part of the timer and of the action: one tick per element of
/// `ticks`, each dispatched execution completing at the instant of its tick.
fn run_over(scheduler: &mut Scheduler<String>, ticks: &[Moment], args: i32) -> Option<Vec<String>> {
    for tick in ticks {
        match scheduler.on_tick_at(tick) {
            Command::AwaitTick => {}
            Command::Dispatch => {
                if let Command::Return(results) = scheduler.on_completion_at(*tick, add(args)) {
                    return Some(results);
                }
            }
            Command::Return(_) => panic!("a tick never ends the run"),
        }
    }
    None
}

/// The same, with the library reading the local clock at every step.
fn run_by_clock(scheduler: &mut Scheduler<String>, max_ticks: usize, args: i32) -> Option<Vec<String>> {
    for _ in 0..max_ticks {
        match scheduler.on_tick() {
            Command::AwaitTick => {}
            Command::Dispatch => {
                if let Command::Return(results) = scheduler.on_completion(add(args)) {
                    return Some(results);
                }
            }
            Command::Return(_) => panic!("a tick never ends the run"),
        }
    }
    None
}

#[test]
fn datetime_once() {
    let mut scheduler = Scheduler::default();
    let now = local_moment();
    scheduler.plan.date_time = Some(now);
    scheduler.plan.count = Some(1);
    let result = run_over(&mut scheduler, &[now], 1).unwrap();
    assert_eq!(result, vec!["result, 2!"]);
}

#[test]
fn interval_twice() {
    let mut scheduler = Scheduler::default();
    scheduler.plan.interval = Some(Period::from_secs(3));
    scheduler.plan.count = Some(3);
    assert_eq!(scheduler.plan.tick_period(), Period { secs: 3, nanos: 0 });
    let result = run_by_clock(&mut scheduler, 3, 1).unwrap();
    assert_eq!(result, vec!["result, 2!", "result, 2!", "result, 2!"]);
}

#[test]
fn bounded_run_returns_each_result_in_call_order() {
    let mut scheduler: Scheduler<String> = Scheduler::default();
    scheduler.plan.count = Some(4);
    let mut returned = None;
    for n in 0..4 {
        assert!(matches!(scheduler.on_tick_at(&at(1, 2, n)), Command::Dispatch));
        assert!(returned.is_none());
        if let Command::Return(results) = scheduler.on_completion_at(at(1, 2, n), add(n as i32)) {
            returned = Some(results);
        }
    }
    assert_eq!(returned.unwrap(), vec!["result, 1!", "result, 2!", "result, 3!", "result, 4!"]);
    assert_eq!(scheduler.executed(), 4);
}

#[test]
fn run_ends_only_when_the_count_is_met() {
    let mut scheduler: Scheduler<String> = Scheduler::default();
    scheduler.plan.count = Some(2);
    assert!(matches!(scheduler.on_completion_at(at(0, 0, 0), add(1)), Command::AwaitTick));
    assert!(!scheduler.finished());
    assert!(matches!(scheduler.on_completion_at(at(0, 0, 1), add(1)), Command::Return(_)));
    assert!(scheduler.finished());
    // Past the bound the count no longer equals the history's length.
    assert!(matches!(scheduler.on_completion_at(at(0, 0, 2), add(1)), Command::AwaitTick));
    assert!(!scheduler.finished());
}

#[test]
fn unbounded_run_never_returns() {
    let mut scheduler: Scheduler<String> = Scheduler::default();
    assert_eq!(run_by_clock(&mut scheduler, 50, 1), None);
    assert_eq!(scheduler.executed(), 50);
    assert!(!scheduler.finished());
}

#[test]
fn zero_count_is_never_met_after_an_execution() {
    let mut scheduler: Scheduler<String> = Scheduler::default();
    scheduler.plan.count = Some(0);
    assert!(scheduler.finished());
    assert_eq!(run_by_clock(&mut scheduler, 10, 1), None);
    assert_eq!(scheduler.executed(), 10);
}

#[test]
fn default_cadence_is_one_second() {
    let plan = Plan::default();
    assert_eq!(plan.tick_period(), Period { secs: 1, nanos: 0 });
    assert_eq!(Plan::new().tick_period(), Period::from_millis(1000));
}

#[test]
fn configured_interval_is_the_cadence() {
    let mut plan = Plan::new();
    plan.interval = Some(Period { secs: 0, nanos: 250_000_000 });
    assert_eq!(plan.tick_period(), Period { secs: 0, nanos: 250_000_000 });
    plan.interval = Some(Period::from_millis(90_500));
    assert_eq!(plan.tick_period(), Period { secs: 90, nanos: 500_000_000 });
}

#[test]
fn period_constructors() {
    assert_eq!(Period::from_secs(3), Period { secs: 3, nanos: 0 });
    assert_eq!(Period::from_millis(0), Period { secs: 0, nanos: 0 });
    assert_eq!(Period::from_millis(999), Period { secs: 0, nanos: 999_000_000 });
    assert_eq!(Period::from_millis(1500), Period { secs: 1, nanos: 500_000_000 });
    assert_eq!(
        Period::from_millis(u64::MAX),
        Period { secs: 18_446_744_073_709_551, nanos: 615_000_000 }
    );
    assert!(Period::from_millis(0).is_zero());
    assert!(!Period::from_millis(1).is_zero());
    assert!(!Period::from_secs(1).is_zero());
}

#[test]
fn no_target_never_skips() {
    let plan = Plan::new();
    for hour in 0..24 {
        for second in [0, 1, 30, 59] {
            assert!(!plan.skips(&at(hour, 17, second)));
        }
    }
    let scheduler: Scheduler<String> = Scheduler::new(plan);
    assert!(!scheduler.skip());
    assert!(matches!(scheduler.on_tick(), Command::Dispatch));
}

#[test]
fn target_skips_unless_hour_minute_and_second_match() {
    let mut plan = Plan::new();
    plan.date_time = Some(at(13, 45, 10));
    assert!(!plan.skips(&at(13, 45, 10)));
    assert!(plan.skips(&at(13, 45, 11)));
    assert!(plan.skips(&at(13, 44, 10)));
    assert!(plan.skips(&at(12, 45, 10)));
    assert!(plan.skips(&at(0, 0, 0)));
    let scheduler: Scheduler<String> = Scheduler::new(plan);
    assert!(!scheduler.skip_at(&at(13, 45, 10)));
    assert!(scheduler.skip_at(&at(13, 45, 9)));
    assert!(matches!(scheduler.on_tick_at(&at(13, 45, 10)), Command::Dispatch));
    assert!(matches!(scheduler.on_tick_at(&at(13, 45, 9)), Command::AwaitTick));
}

#[test]
fn target_date_is_ignored() {
    let mut plan = Plan::new();
    plan.date_time = Some(Moment {
        stamp_millis: 915_148_800_000,
        year: 1999,
        month: 1,
        day: 1,
        hour: 6,
        minute: 30,
        second: 0,
    });
    let later = Moment {
        stamp_millis: 1_900_000_000_000,
        year: 2030,
        month: 3,
        day: 17,
        hour: 6,
        minute: 30,
        second: 0,
    };
    assert!(!plan.skips(&later));
    let mut other_second = later;
    other_second.second = 1;
    assert!(plan.skips(&other_second));
}

#[test]
fn clock_tick_in_the_target_second_is_dispatched() {
    // The second on the clock may change between two readings; a reading
    // pair that agrees brackets the library's own reading.
    for _ in 0..5 {
        let before = local_moment();
        let mut scheduler: Scheduler<String> = Scheduler::default();
        scheduler.plan.date_time = Some(before);
        let skip = scheduler.skip();
        let command = scheduler.on_tick();
        let after = local_moment();
        if (before.hour, before.minute, before.second) == (after.hour, after.minute, after.second) {
            assert!(!skip);
            assert!(matches!(command, Command::Dispatch));
            return;
        }
    }
    panic!("the clock changed its second during each of five attempts");
}

#[test]
fn clock_tick_far_from_the_target_is_skipped() {
    let mut target = local_moment();
    target.hour = (target.hour + 12) % 24;
    let mut scheduler: Scheduler<String> = Scheduler::default();
    scheduler.plan.date_time = Some(target);
    assert!(scheduler.skip());
    assert!(matches!(scheduler.on_tick(), Command::AwaitTick));
    assert_eq!(run_by_clock(&mut scheduler, 20, 1), None);
    assert_eq!(scheduler.executed(), 0);
}

#[test]
fn execute_records_the_clock_and_returns_the_result() {
    let mut scheduler: Scheduler<String> = Scheduler::default();
    let before = local_moment();
    let result = scheduler.execute(add(1));
    let after = local_moment();
    assert_eq!(result, "result, 2!");
    assert_eq!(scheduler.executed(), 1);
    assert_eq!(scheduler.results_so_far(), vec!["result, 2!"]);
    let at = scheduler.recorded_at(0).unwrap();
    assert!(at.stamp_millis > 1_000_000_000_000);
    assert!(before.stamp_millis <= at.stamp_millis && at.stamp_millis <= after.stamp_millis);
    assert!(1 <= at.month && at.month <= 12);
    assert!(1 <= at.day && at.day <= 31);
    assert!(at.hour < 24 && at.minute < 60 && at.second < 60);
    assert!(before.year <= at.year && at.year <= after.year);
    assert_eq!(scheduler.recorded_at(1), None);
}

#[test]
fn history_grows_by_one_record_and_keeps_what_it_has() {
    let mut scheduler: Scheduler<String> = Scheduler::default();
    assert_eq!(scheduler.executed(), 0);
    assert_eq!(scheduler.results_so_far(), Vec::<String>::new());
    assert_eq!(scheduler.recorded_at(0), None);
    let mut expected: Vec<String> = Vec::new();
    for n in 0..6u32 {
        let now = at(7, 8, n);
        let back = scheduler.record(now, add(n as i32));
        expected.push(add(n as i32));
        assert_eq!(back, add(n as i32));
        assert_eq!(scheduler.executed(), expected.len());
        assert_eq!(scheduler.results_so_far(), expected);
        for earlier in 0..=n {
            assert_eq!(scheduler.recorded_at(earlier as usize), Some(at(7, 8, earlier)));
        }
        assert_eq!(scheduler.recorded_at(n as usize + 1), None);
    }
}

#[test]
fn new_scheduler_keeps_its_plan() {
    let mut plan = Plan::new();
    plan.interval = Some(Period::from_secs(5));
    plan.date_time = Some(at(1, 2, 3));
    plan.count = Some(7);
    let scheduler: Scheduler<String> = Scheduler::new(plan);
    assert_eq!(scheduler.plan.interval, Some(Period { secs: 5, nanos: 0 }));
    assert_eq!(scheduler.plan.date_time, Some(at(1, 2, 3)));
    assert_eq!(scheduler.plan.count, Some(7));
    assert_eq!(scheduler.executed(), 0);
    let fresh: Scheduler<String> = Scheduler::default();
    assert_eq!(fresh.plan.interval, None);
    assert_eq!(fresh.plan.date_time, None);
    assert_eq!(fresh.plan.count, None);
}

#[test]
fn plan_reached_compares_the_count() {
    let mut plan = Plan::new();
    assert!(!plan.reached(0));
    assert!(!plan.reached(3));
    plan.count = Some(3);
    assert!(!plan.reached(2));
    assert!(plan.reached(3));
    assert!(!plan.reached(4));
}

#[test]
fn moment_comparisons() {
    let a = at(10, 20, 30);
    let mut b = a;
    b.year = 1980;
    b.month = 12;
    b.day = 31;
    b.stamp_millis = -5;
    assert!(a.matches_time_of_day(&b));
    assert!(a.is_in_minute(10, 20));
    assert!(!a.is_in_minute(10, 21));
    assert!(!a.is_in_minute(11, 20));
    b.second = 31;
    assert!(!a.matches_time_of_day(&b));
    assert!(b.is_in_minute(10, 20));
}
