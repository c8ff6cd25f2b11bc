use daily_planner::time::Clock;
use daily_planner::time::Duration;
use daily_planner::time::Time;

#[test]
fn time_rounding() {
    let t1 = Time::hm(0, 58).round_to_quarter();
    assert_eq!(t1, Time::hm(1, 0));

    let t2 = Time::hm(3, 2).round_to_quarter();
    assert_eq!(t2, Time::hm(3, 0));

    let t3 = Time::hm(2, 43).round_to_quarter();
    assert_eq!(t3, Time::hm(2, 45));
}

#[test]
fn half_rounding() {
    assert_eq!(Time::hm(9, 10).round_to_half(), Time::hm(9, 0));
    assert_eq!(Time::hm(9, 20).round_to_half(), Time::hm(9, 30));
    assert_eq!(Time::hm(9, 44).round_to_half(), Time::hm(9, 30));
    assert_eq!(Time::hm(9, 50).round_to_half(), Time::hm(10, 0));
}

#[test]
fn addition_wraps_at_midnight() {
    let t = Time::hm(23, 30);
    assert_eq!(t.plus(&Duration::hm(1, 0)), Time::hm(0, 30));
    assert_eq!(t.plus(&Duration::hm(0, 15)), Time::hm(23, 45));
    let t2 = Time::hm(0, 10);
    assert_eq!(t2.minus(&Duration::hm(0, 30)), Time::hm(23, 40));
}

#[test]
fn adjust_moves_in_place() {
    let mut t = Time::hm(10, 0);
    t.adjust(&Duration::hm(0, 30));
    assert_eq!(t, Time::hm(10, 30));
    t.adjust(&Duration::hm(-1, 0));
    assert_eq!(t, Time::hm(9, 30));
}

#[test]
fn since_wraps_forward() {
    let d = Time::hm(1, 0).since(&Time::hm(23, 0));
    assert_eq!(d.minutes, 120);
    let d2 = Time::hm(9, 45).since(&Time::hm(9, 0));
    assert_eq!(d2.minutes, 45);
}

#[test]
fn durations_compose() {
    assert_eq!(Duration::hours(2).minutes, 120);
    assert_eq!(Duration::hm(1, 30).minutes, 90);
    assert_eq!(Duration::hm(0, -15).minutes, -15);
    assert_eq!(Duration::hm(1, 0).plus(&Duration::hm(0, 45)).minutes, 105);
    assert_eq!(Duration::hm(1, 0).minus(&Duration::hm(0, 45)).minutes, 15);
}

#[test]
fn clock_difference_splits_hours_and_minutes() {
    let c = Clock::difference(&Time::hm(1, 30), &Time::hm(3, 15));
    assert_eq!(c.hour, 1);
    assert_eq!(c.min, 45);
    let c2 = Clock::difference(&Time::hm(3, 15), &Time::hm(1, 30));
    assert_eq!(c2.hour, 1);
    assert_eq!(c2.min, 45);
    assert_eq!(c2.to_time(), Time::hm(1, 45));
    assert_eq!(c2.to_duration().minutes, 105);
}

#[test]
fn time_from_duration_reads_hours_and_minutes() {
    let t = Time::from_duration(&Duration::hm(14, 30));
    assert_eq!(t, Time::hm(14, 30));
    assert_eq!(Duration::from_time(&Time::hm(2, 5)).minutes, 125);
}
