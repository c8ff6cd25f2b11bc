use daily_planner::dom::Activity;
use daily_planner::dom::ActivityKind;
use daily_planner::dom::TimeSlotKind;
use daily_planner::keys::KeyCode;
use daily_planner::keys::KeyEvent;
use daily_planner::keys::KeyModifiers;
use daily_planner::parse::ParseError;
use daily_planner::template::Template;
use daily_planner::template::TemplateMeta;
use daily_planner::template::TimeBoxTemplate;
use daily_planner::template::TimeSlotTemplate;
use daily_planner::template::TimeTemplate;
use daily_planner::text_capture::TextCapture;
use daily_planner::time::Duration;
use daily_planner::time::Time;

#[test]
fn time_templates_parse_all_three_shapes() {
    assert!(matches!(
        TimeTemplate::from_str("%H:%M"),
        Ok(TimeTemplate::TimeFormat)
    ));
    match TimeTemplate::from_str("+0:15") {
        Ok(TimeTemplate::RelativeTime(d)) => assert_eq!(d.minutes, 15),
        other => panic!("unexpected: {:?}", other),
    }
    match TimeTemplate::from_str("-1:30") {
        // A leading minus marks a relative time; its minute part still adds.
        Ok(TimeTemplate::RelativeTime(d)) => assert_eq!(d.minutes, -30),
        other => panic!("unexpected: {:?}", other),
    }
    match TimeTemplate::from_str("14:00") {
        Ok(TimeTemplate::AbsoluteTime(d)) => assert_eq!(d.minutes, 840),
        other => panic!("unexpected: {:?}", other),
    }
    match TimeTemplate::from_str("nonsense") {
        Err(ParseError::CantParseTime(s)) => assert_eq!(s, "nonsense"),
        other => panic!("unexpected: {:?}", other),
    }
    assert!(matches!(
        TimeTemplate::from_str("%H:30"),
        Err(ParseError::CantParseTime(_))
    ));
}

#[test]
fn slot_templates_split_spans_on_the_double_dash() {
    match TimeSlotTemplate::from_str("7:00--8:30") {
        Ok(TimeSlotTemplate::Span(TimeTemplate::AbsoluteTime(a), TimeTemplate::AbsoluteTime(b))) => {
            assert_eq!(a.minutes, 420);
            assert_eq!(b.minutes, 510);
        }
        other => panic!("unexpected: {:?}", other),
    }
    assert!(matches!(
        TimeSlotTemplate::from_str("+0:30"),
        Ok(TimeSlotTemplate::Time(TimeTemplate::RelativeTime(_)))
    ));
    assert!(matches!(
        TimeSlotTemplate::from_str("x--y"),
        Err(ParseError::CantParseTime(_))
    ));
}

#[test]
fn a_template_line_collects_slot_kind_and_text() {
    let tb = TimeBoxTemplate::from_str("- 7:00 meal: Breakfast at home").unwrap();
    assert!(matches!(
        tb.time,
        Some(TimeSlotTemplate::Time(TimeTemplate::AbsoluteTime(_)))
    ));
    assert_eq!(tb.activity.kind, ActivityKind::Meal);
    assert_eq!(tb.activity.summary, "Breakfast at home");

    let plain = TimeBoxTemplate::from_str("* Just words here").unwrap();
    assert!(plain.time.is_none());
    assert_eq!(plain.activity.kind, ActivityKind::Unknown);
    assert_eq!(plain.activity.summary, "Just words here");

    assert!(matches!(
        TimeBoxTemplate::from_str(""),
        Err(ParseError::EmptyString)
    ));
    assert!(matches!(
        TimeBoxTemplate::from_str("-"),
        Err(ParseError::NoActivity)
    ));
}

#[test]
fn a_template_generates_a_schedule_with_a_running_clock() {
    let lines = vec![
        "- %H:%M Wake up".to_string(),
        "".to_string(),
        "- +0:30 sprint: Morning work".to_string(),
        "- 12:00--+1:00 meal: Lunch".to_string(),
        "- Anytime chores".to_string(),
    ];
    let template = Template::from_lines(&lines).unwrap();
    let meta = TemplateMeta {
        wake_up_today: Time::hm(9, 0),
        wake_up_tomorrow: Time::hm(7, 30),
        span_len: Duration::hm(3, 15),
        sunrise: Some(Time::hm(6, 10)),
        sunset: Some(Time::hm(18, 40)),
    };
    let schedule = template.schedule(meta);
    assert_eq!(schedule.timeboxes.len(), 4);
    assert_eq!(schedule.timeboxes[0].time, Some(TimeSlotKind::Time(Time::hm(9, 0))));
    assert_eq!(schedule.timeboxes[0].activity.summary, "Wake up");
    assert_eq!(schedule.timeboxes[1].time, Some(TimeSlotKind::Time(Time::hm(9, 30))));
    assert_eq!(schedule.timeboxes[1].activity.kind, ActivityKind::Sprint);
    assert_eq!(
        schedule.timeboxes[2].time,
        Some(TimeSlotKind::Span(Time::hm(12, 0), Time::hm(13, 0)))
    );
    assert_eq!(schedule.timeboxes[2].activity.kind, ActivityKind::Meal);
    assert_eq!(schedule.timeboxes[3].time, None);
    assert_eq!(schedule.wake_up, Time::hm(9, 0));
    assert_eq!(schedule.wake_up_tomorrow, Time::hm(7, 30));
    assert_eq!(schedule.sunrise, Some(Time::hm(6, 10)));
}

#[test]
fn a_span_with_format_end_uses_the_default_length() {
    let lines = vec!["- %H:%M--%H:%M Long block".to_string()];
    let template = Template::from_lines(&lines).unwrap();
    let meta = TemplateMeta {
        wake_up_today: Time::hm(8, 0),
        wake_up_tomorrow: Time::hm(8, 0),
        span_len: Duration::hm(3, 15),
        sunrise: None,
        sunset: None,
    };
    let schedule = template.schedule(meta);
    assert_eq!(
        schedule.timeboxes[0].time,
        Some(TimeSlotKind::Span(Time::hm(8, 0), Time::hm(11, 15)))
    );
}

#[test]
fn activity_parsing_trims_the_text() {
    let a = Activity::from_str("  Morning run  ").unwrap();
    assert_eq!(a.summary, "Morning run");
    assert_eq!(a.kind, ActivityKind::Unknown);
    assert!(matches!(
        ActivityKind::from_str("meal"),
        Ok(ActivityKind::Meal)
    ));
    assert!(matches!(
        ActivityKind::from_str("sprint"),
        Ok(ActivityKind::Sprint)
    ));
    assert!(matches!(
        ActivityKind::from_str("nap"),
        Ok(ActivityKind::Unknown)
    ));
}

#[test]
fn text_capture_edits_and_moves() {
    let mut capture = TextCapture::owned();
    assert_eq!(capture.input(&KeyEvent::plain('h')), (true, 1));
    // The widget's stored cursor stays put on insertion; the terminal
    // cursor alone is asked to move, so a second insert lands in front.
    assert_eq!(capture.text().as_str(), "h");
    assert_eq!(capture.input(&KeyEvent::plain('i')), (true, 1));
    assert_eq!(capture.text().as_str(), "ih");
    // End jumps to the end of the content.
    let (_, jump) = capture.input(&KeyEvent::new(KeyCode::End, KeyModifiers::none()));
    assert_eq!(jump, 2);
    assert_eq!(capture.cursor(), 2);
    // Backspace removes left of the cursor and steps back.
    assert_eq!(capture.input(&KeyEvent::new(KeyCode::Backspace, KeyModifiers::none())), (true, -1));
    assert_eq!(capture.text().as_str(), "i");
    // Home returns to the start.
    let (_, back) = capture.input(&KeyEvent::new(KeyCode::Home, KeyModifiers::none()));
    assert_eq!(back, -1);
    // Delete removes under the cursor without moving.
    assert_eq!(capture.input(&KeyEvent::new(KeyCode::Delete, KeyModifiers::none())), (false, 0));
    assert_eq!(capture.text().as_str(), "");

    let mut prefilled = TextCapture::capture("abcdef".to_string(), 0);
    assert_eq!(prefilled.input(&KeyEvent::new(KeyCode::Tab, KeyModifiers::none())), (true, 4));
    assert_eq!(prefilled.cursor(), 4);
    assert_eq!(prefilled.input(&KeyEvent::new(KeyCode::Tab, KeyModifiers::none())), (true, 2));
    assert_eq!(prefilled.cursor(), 6);
    assert_eq!(prefilled.input(&KeyEvent::new(KeyCode::BackTab, KeyModifiers::none())), (true, -4));
    assert_eq!(prefilled.cursor(), 2);
    assert_eq!(prefilled.input(&KeyEvent::new(KeyCode::Right, KeyModifiers::none())), (true, 1));
    assert_eq!(prefilled.input(&KeyEvent::new(KeyCode::Left, KeyModifiers::none())), (true, -1));
    prefilled.set_text("xy".to_string());
    assert_eq!(prefilled.text().as_str(), "xy");
}
