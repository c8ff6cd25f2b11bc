use daily_planner::cursor::ContentCursor;
use daily_planner::cursor::MappedPos;
use daily_planner::cursor::RenderGeometry;
use daily_planner::cursor::TerminalPos;
use daily_planner::dom::Activity;
use daily_planner::dom::ActivityKind;
use daily_planner::dom::AdjustPolicy;
use daily_planner::dom::TimeBox;
use daily_planner::dom::TimeSlotKind;
use daily_planner::render::duration_text;
use daily_planner::render::render_line;
use daily_planner::render::slot_text;
use daily_planner::render::time_text;
use daily_planner::schedule::Schedule;
use daily_planner::time::Duration;
use daily_planner::time::Time;

fn boxed(summary: &str, time: Option<TimeSlotKind>) -> TimeBox {
    TimeBox {
        time,
        activity: Activity { summary: summary.to_string(), kind: ActivityKind::Unknown },
        done: false,
        adjust_policy: AdjustPolicy::Normal,
    }
}

fn sample_schedule() -> Schedule {
    Schedule {
        timeboxes: vec![
            boxed("Wake up", None),
            boxed("Breakfast", Some(TimeSlotKind::Time(Time::hm(9, 0)))),
            boxed("Gym", None),
        ],
        wake_up: Time::hm(9, 0),
        wake_up_tomorrow: Time::hm(7, 30),
        sunrise: None,
        sunset: None,
    }
}

#[test]
fn time_column_width_is_the_widest_slot() {
    let mut schedule = sample_schedule();
    // Only "09:00" is rendered: five characters.
    assert_eq!(schedule.time_col_width(), 5);
    schedule.timeboxes[2].time = Some(TimeSlotKind::Span(Time::hm(10, 0), Time::hm(11, 30)));
    // "10:00--11:30 (1h30m)" is twenty characters.
    assert_eq!(schedule.time_col_width(), 20);
    schedule.timeboxes[1].time = None;
    schedule.timeboxes[2].time = None;
    assert_eq!(schedule.time_col_width(), 0);
}

#[test]
fn round_trip_of_a_valid_content_position() {
    let schedule = sample_schedule();
    let geom = RenderGeometry { render_y: 2, render_height: 3 };
    let pos = MappedPos { col: 4, line: 1 };
    let terminal = pos.map_to_terminal(geom, &schedule).unwrap();
    // col + width + 1, line + render_y
    assert_eq!(terminal, TerminalPos { hpos: 10, vpos: 3 });
    let back = terminal.map_to_content(geom, &schedule).unwrap();
    assert_eq!(back, pos);
}

#[test]
fn mapping_fails_off_the_rendered_region() {
    let schedule = sample_schedule();
    let geom = RenderGeometry { render_y: 2, render_height: 3 };
    // line at the rendered height is off screen
    assert!(MappedPos { col: 0, line: 3 }.map_to_terminal(geom, &schedule).is_none());
    // column more than one past the end of "Gym" fails
    assert!(MappedPos { col: 4, line: 2 }.map_to_terminal(geom, &schedule).is_none());
    assert!(MappedPos { col: 3, line: 2 }.map_to_terminal(geom, &schedule).is_some());
    // rows above and below the render region fail
    assert!(TerminalPos { hpos: 6, vpos: 1 }.map_to_content(geom, &schedule).is_none());
    assert!(TerminalPos { hpos: 6, vpos: 5 }.map_to_content(geom, &schedule).is_none());
    // the column tolerance reaches two past the end of the text
    assert!(TerminalPos { hpos: 10, vpos: 4 }.map_to_content(geom, &schedule).is_some());
    assert!(TerminalPos { hpos: 11, vpos: 4 }.map_to_content(geom, &schedule).is_none());
    // left of the text area fails
    assert!(TerminalPos { hpos: 5, vpos: 4 }.map_to_content(geom, &schedule).is_none());
}

#[test]
fn vertical_move_uses_the_ghost_column() {
    let schedule = sample_schedule();
    let geom = RenderGeometry { render_y: 0, render_height: 3 };
    // Start at the end of "Breakfast" (col 9, line 1).
    let start = MappedPos { col: 9, line: 1 }.map_to_terminal(geom, &schedule).unwrap();
    let mut cursor = ContentCursor::create_at(start);
    // Moving down: col 9 does not exist on "Gym"; the move keeps the ghost
    // column, which also fails there, so nothing happens.
    assert!(cursor.move_down(cursor.pos, &schedule, geom).is_none());
    // Moving left twice then down: the ghost column stays at 7 ("Gym" has
    // col 0..=3), so down still fails from the live position but the ghost
    // fallback fails too; move to a valid column first.
    let target = MappedPos { col: 2, line: 1 };
    let moved = cursor.move_to_content(&target, &schedule, geom).unwrap();
    assert_eq!(moved, TerminalPos { hpos: 8, vpos: 1 });
    let down = cursor.move_up(cursor.pos, &schedule, geom).unwrap();
    assert_eq!(down, TerminalPos { hpos: 8, vpos: 0 });
}

#[test]
fn clamp_pulls_the_cursor_back_into_the_schedule() {
    let schedule = sample_schedule();
    let geom = RenderGeometry { render_y: 0, render_height: 3 };
    let mut cursor = ContentCursor::create_at(TerminalPos { hpos: 40, vpos: 9 });
    cursor.clamp_to_content(&schedule, geom);
    // Row clamps to the last line (2), column to one past "Gym" (6 + 3).
    assert_eq!(cursor.pos, TerminalPos { hpos: 9, vpos: 2 });
    assert!(cursor.pos.map_to_content(geom, &schedule).is_some());
}

#[test]
fn rendered_time_texts() {
    assert_eq!(time_text(&Time::hm(7, 5)), "07:05");
    assert_eq!(duration_text(&Duration::hm(1, 30)), "1h30m");
    assert_eq!(duration_text(&Duration::hm(2, 0)), "2h");
    assert_eq!(duration_text(&Duration::hm(0, 45)), "45m");
    assert_eq!(duration_text(&Duration::hm(0, 0)), "0m");
    assert_eq!(slot_text(&TimeSlotKind::Time(Time::hm(9, 0))), "09:00");
    assert_eq!(
        slot_text(&TimeSlotKind::Span(Time::hm(10, 0), Time::hm(11, 30))),
        "10:00--11:30 (1h30m)"
    );
    // A span crossing midnight measures its wraparound-aware length.
    assert_eq!(
        slot_text(&TimeSlotKind::Span(Time::hm(23, 0), Time::hm(0, 30))),
        "23:00--00:30 (1h30m)"
    );
}

#[test]
fn rendered_line_pads_the_time_column() {
    let b = boxed("Breakfast", Some(TimeSlotKind::Time(Time::hm(9, 0))));
    assert_eq!(render_line(&b, 8), "09:00    Breakfast");
    let untimed = boxed("Wake up", None);
    assert_eq!(render_line(&untimed, 8), "         Wake up");
    assert_eq!(render_line(&untimed, 0), "      Wake up");
}
