use daily_planner::dom::Activity;
use daily_planner::dom::ActivityKind;
use daily_planner::dom::AdjustPolicy;
use daily_planner::dom::TimeBox;
use daily_planner::dom::TimeSlotKind;
use daily_planner::schedule::Schedule;
use daily_planner::time::Duration;
use daily_planner::time::Time;

fn entry(summary: &str, time: Option<TimeSlotKind>, policy: AdjustPolicy) -> TimeBox {
    TimeBox {
        time,
        activity: Activity { summary: summary.to_string(), kind: ActivityKind::Unknown },
        done: false,
        adjust_policy: policy,
    }
}

fn abc() -> Schedule {
    Schedule {
        timeboxes: vec![
            entry("A", Some(TimeSlotKind::Time(Time::hm(10, 0))), AdjustPolicy::Normal),
            entry("B", Some(TimeSlotKind::Time(Time::hm(11, 0))), AdjustPolicy::Fixed),
            entry("C", Some(TimeSlotKind::Time(Time::hm(12, 0))), AdjustPolicy::Normal),
        ],
        wake_up: Time::hm(9, 0),
        wake_up_tomorrow: Time::hm(7, 30),
        sunrise: None,
        sunset: None,
    }
}

#[test]
fn cascading_adjustment_skips_fixed_boxes() {
    let mut schedule = abc();
    schedule.adjust_times_relative(0, &Duration::hm(0, 30), 0);
    assert_eq!(schedule.timeboxes[0].time, Some(TimeSlotKind::Time(Time::hm(10, 30))));
    assert_eq!(schedule.timeboxes[1].time, Some(TimeSlotKind::Time(Time::hm(11, 0))));
    assert_eq!(schedule.timeboxes[2].time, Some(TimeSlotKind::Time(Time::hm(12, 30))));
}

#[test]
fn absolute_adjustment_touches_one_box() {
    let mut schedule = abc();
    schedule.adjust_time_absolute(2, &Duration::hm(-1, 0), 0);
    assert_eq!(schedule.timeboxes[0].time, Some(TimeSlotKind::Time(Time::hm(10, 0))));
    assert_eq!(schedule.timeboxes[2].time, Some(TimeSlotKind::Time(Time::hm(11, 0))));
}

#[test]
fn span_adjustment_honours_the_time_cursor() {
    let span = Some(TimeSlotKind::Span(Time::hm(10, 0), Time::hm(11, 0)));
    let mut schedule = abc();
    schedule.timeboxes[0].time = span;
    // time cursor 1: only the end moves
    schedule.adjust_time_absolute(0, &Duration::hm(0, 15), 1);
    assert_eq!(
        schedule.timeboxes[0].time,
        Some(TimeSlotKind::Span(Time::hm(10, 0), Time::hm(11, 15)))
    );
    // time cursor 0: both ends move
    schedule.adjust_time_absolute(0, &Duration::hm(0, 15), 0);
    assert_eq!(
        schedule.timeboxes[0].time,
        Some(TimeSlotKind::Span(Time::hm(10, 15), Time::hm(11, 30)))
    );
}

#[test]
fn insert_time_box_adds_an_empty_line() {
    let mut schedule = abc();
    assert!(schedule.insert_time_box(1));
    assert_eq!(schedule.timeboxes.len(), 4);
    assert_eq!(schedule.timeboxes[1].activity.summary, "");
    assert_eq!(schedule.timeboxes[1].time, None);
    assert!(!schedule.timeboxes[1].done);
    assert_eq!(schedule.timeboxes[1].adjust_policy, AdjustPolicy::Normal);
    assert_eq!(schedule.timeboxes[2].activity.summary, "B");
}

#[test]
fn swap_exchanges_two_lines() {
    let mut schedule = abc();
    schedule.swap(0, 2);
    assert_eq!(schedule.timeboxes[0].activity.summary, "C");
    assert_eq!(schedule.timeboxes[2].activity.summary, "A");
}

#[test]
fn inherit_time_scans_backward_to_the_nearest_timed_box() {
    // A box with no time, following two untimed boxes and one box timed at
    // 09:00, inherits 09:00.
    let schedule = Schedule {
        timeboxes: vec![
            entry("a", None, AdjustPolicy::Normal),
            entry("b", None, AdjustPolicy::Normal),
            entry("c", Some(TimeSlotKind::Time(Time::hm(9, 0))), AdjustPolicy::Normal),
            entry("d", None, AdjustPolicy::Normal),
        ],
        wake_up: Time::hm(6, 0),
        wake_up_tomorrow: Time::hm(6, 0),
        sunrise: None,
        sunset: None,
    };
    assert_eq!(
        TimeSlotKind::inherit_time(3, &schedule),
        TimeSlotKind::Time(Time::hm(9, 0))
    );
    // With nothing timed above, wake-up time is inherited.
    assert_eq!(
        TimeSlotKind::inherit_time(1, &schedule),
        TimeSlotKind::Time(Time::hm(6, 0))
    );
}

#[test]
fn line_accessor_checks_bounds() {
    let schedule = abc();
    assert_eq!(schedule.line(1).unwrap().activity.summary, "B");
    assert!(schedule.line(3).is_none());
}

#[test]
fn unscheduled_time_runs_to_tomorrows_wake_up() {
    let mut schedule = abc();
    schedule.timeboxes[2].time = Some(TimeSlotKind::Span(Time::hm(22, 0), Time::hm(23, 0)));
    let (left, wake) = schedule.unscheduled_time().unwrap();
    assert_eq!(left.minutes, 8 * 60 + 30);
    assert_eq!(wake, Time::hm(7, 30));

    schedule.timeboxes[0].time = None;
    schedule.timeboxes[1].time = None;
    schedule.timeboxes[2].time = None;
    assert!(schedule.unscheduled_time().is_none());
}

#[test]
fn last_timed_slot_scans_from_the_end() {
    let mut schedule = abc();
    schedule.timeboxes[2].time = None;
    assert_eq!(
        schedule.last_timed_slot(),
        Some(TimeSlotKind::Time(Time::hm(11, 0)))
    );
}
