use daily_planner::command::Command;
use daily_planner::cursor::ContentCursor;
use daily_planner::cursor::RenderGeometry;
use daily_planner::cursor::TerminalPos;
use daily_planner::dom::Activity;
use daily_planner::dom::ActivityKind;
use daily_planner::dom::AdjustPolicy;
use daily_planner::dom::TimeBox;
use daily_planner::dom::TimeSlotKind;
use daily_planner::keys::KeyCode;
use daily_planner::keys::KeyEvent;
use daily_planner::keys::KeyModifiers;
use daily_planner::keys::bindings;
use daily_planner::mode::Mode;
use daily_planner::mode::TimeMode;
use daily_planner::schedule::Schedule;
use daily_planner::state::State;
use daily_planner::state::StatusBar;
use daily_planner::time::Time;

fn line_entry(summary: &str, time: Option<TimeSlotKind>) -> TimeBox {
    TimeBox {
        time,
        activity: Activity { summary: summary.to_string(), kind: ActivityKind::Unknown },
        done: false,
        adjust_policy: AdjustPolicy::Normal,
    }
}

fn two_line_schedule() -> Schedule {
    Schedule {
        timeboxes: vec![
            line_entry("Wake up", None),
            line_entry("Breakfast", Some(TimeSlotKind::Time(Time::hm(9, 0)))),
        ],
        wake_up: Time::hm(9, 0),
        wake_up_tomorrow: Time::hm(7, 30),
        sunrise: None,
        sunset: None,
    }
}

/// Builds a ready-to-edit editor state: geometry recorded, cursor at the
/// top-left of the schedule.
fn editor(schedule: Schedule) -> State {
    let mut state = State::new(schedule);
    state.set_geometry(0);
    let cursor = ContentCursor::create_at_top_left(state.geom, &state.schedule);
    state.cursor = Some(cursor);
    state
}

/// Feeds one key, simulating the surrounding loop: the live terminal cursor
/// follows the stored one, and a redraw refreshes the geometry.
fn press(state: &mut State, key: KeyEvent) {
    let cur_pos = state.cursor.unwrap().pos;
    let table = bindings();
    let (redraw, _moved) = state.handle_key(&key, cur_pos, &table);
    if redraw {
        state.set_geometry(state.geom.render_y);
    }
}

#[test]
fn insert_mode_text_edit() {
    // Inserting "ab" then backspacing once on an empty-text box yields "a"
    // and the cursor back one column.
    let schedule = Schedule {
        timeboxes: vec![line_entry("", None)],
        wake_up: Time::hm(9, 0),
        wake_up_tomorrow: Time::hm(9, 0),
        sunrise: None,
        sunset: None,
    };
    let mut state = editor(schedule);
    state.mode = Mode::Insert;
    press(&mut state, KeyEvent::plain('a'));
    press(&mut state, KeyEvent::plain('b'));
    assert_eq!(state.schedule.timeboxes[0].activity.summary, "ab");
    let col_before = state.cursor.unwrap().pos.hpos;
    press(&mut state, KeyEvent::new(KeyCode::Backspace, KeyModifiers::none()));
    assert_eq!(state.schedule.timeboxes[0].activity.summary, "a");
    assert_eq!(state.cursor.unwrap().pos.hpos, col_before - 1);

    // Typing an accented letter folds it to its base letter.
    press(&mut state, KeyEvent::plain('\u{e4}'));
    assert_eq!(state.schedule.timeboxes[0].activity.summary, "aa");

    // A four-byte emoji is rejected without a change.
    let cur_pos = state.cursor.unwrap().pos;
    let table = bindings();
    let (changed, moved) = state.handle_key(&KeyEvent::plain('\u{1f980}'), cur_pos, &table);
    assert!(!changed);
    assert!(moved.is_none());
    assert_eq!(state.schedule.timeboxes[0].activity.summary, "aa");

    // Shift uppercases the typed character.
    press(&mut state, KeyEvent::new(KeyCode::Char('g'), KeyModifiers::shift()));
    assert_eq!(state.schedule.timeboxes[0].activity.summary, "aaG");
}

#[test]
fn end_to_end_open_line_and_type() {
    // j, o, "Gym", Esc: a third entry appears after "Breakfast" with text
    // "Gym", and the mode is back to Cursor.
    let mut state = editor(two_line_schedule());
    press(&mut state, KeyEvent::plain('j'));
    assert_eq!(state.cursor.unwrap().pos, TerminalPos { hpos: 6, vpos: 1 });
    press(&mut state, KeyEvent::plain('o'));
    assert_eq!(state.mode, Mode::Insert);
    assert_eq!(state.schedule.timeboxes.len(), 3);
    press(&mut state, KeyEvent::new(KeyCode::Char('g'), KeyModifiers::shift()));
    press(&mut state, KeyEvent::plain('y'));
    press(&mut state, KeyEvent::plain('m'));
    press(&mut state, KeyEvent::new(KeyCode::Esc, KeyModifiers::none()));
    assert_eq!(state.mode, Mode::Cursor);
    assert_eq!(state.schedule.timeboxes.len(), 3);
    assert_eq!(state.schedule.timeboxes[2].activity.summary, "Gym");
    assert_eq!(state.schedule.timeboxes[2].time, None);
    // The cursor stands on the new line, one left of where typing ended.
    assert_eq!(state.cursor.unwrap().pos, TerminalPos { hpos: 8, vpos: 2 });
}

#[test]
fn span_toggle_runs_back_to_the_same_time() {
    let mut state = editor(two_line_schedule());
    press(&mut state, KeyEvent::plain('j'));
    press(&mut state, KeyEvent::plain('t'));
    assert_eq!(state.mode, Mode::Time);
    press(&mut state, KeyEvent::plain('s'));
    assert_eq!(
        state.schedule.timeboxes[1].time,
        Some(TimeSlotKind::Span(Time::hm(9, 0), Time::hm(9, 0)))
    );
    press(&mut state, KeyEvent::plain('s'));
    assert_eq!(
        state.schedule.timeboxes[1].time,
        Some(TimeSlotKind::Time(Time::hm(9, 0)))
    );
}

#[test]
fn cut_and_paste_preserve_the_boxes() {
    let schedule = Schedule {
        timeboxes: vec![line_entry("A", None), line_entry("B", None), line_entry("C", None)],
        wake_up: Time::hm(9, 0),
        wake_up_tomorrow: Time::hm(9, 0),
        sunrise: None,
        sunset: None,
    };
    let mut state = editor(schedule);
    // d d cuts the current line into the clipboard...
    press(&mut state, KeyEvent::plain('d'));
    assert_eq!(state.mode, Mode::Delete);
    press(&mut state, KeyEvent::plain('d'));
    assert_eq!(state.mode, Mode::Cursor);
    assert_eq!(state.schedule.timeboxes.len(), 2);
    assert_eq!(state.clipboard.as_ref().unwrap().activity.summary, "A");
    // ...and p pastes it below the (possibly shifted) cursor line.
    press(&mut state, KeyEvent::plain('p'));
    assert_eq!(state.schedule.timeboxes.len(), 3);
    let names: Vec<&str> = state
        .schedule
        .timeboxes
        .iter()
        .map(|b| b.activity.summary.as_str())
        .collect();
    assert_eq!(names, vec!["B", "A", "C"]);
}

#[test]
fn cutting_the_last_line_is_refused() {
    let schedule = Schedule {
        timeboxes: vec![line_entry("only", None)],
        wake_up: Time::hm(9, 0),
        wake_up_tomorrow: Time::hm(9, 0),
        sunrise: None,
        sunset: None,
    };
    let mut state = editor(schedule);
    press(&mut state, KeyEvent::plain('d'));
    press(&mut state, KeyEvent::plain('d'));
    assert_eq!(state.schedule.timeboxes.len(), 1);
    assert!(state.clipboard.is_none());
}

#[test]
fn time_mode_inherits_a_missing_time() {
    let mut state = editor(two_line_schedule());
    // The first box has no time; entering time mode on it inherits one
    // (wake-up, as nothing timed stands above) and switches to absolute
    // adjustments.
    press(&mut state, KeyEvent::plain('t'));
    assert_eq!(state.mode, Mode::Time);
    assert_eq!(state.time_mode, TimeMode::Absolute);
    assert_eq!(
        state.schedule.timeboxes[0].time,
        Some(TimeSlotKind::Time(Time::hm(9, 0)))
    );
}

#[test]
fn time_mode_adjustments_cascade_by_default() {
    let mut state = editor(two_line_schedule());
    press(&mut state, KeyEvent::plain('j'));
    press(&mut state, KeyEvent::plain('t'));
    assert_eq!(state.time_mode, TimeMode::Relative);
    // l adds an hour; j adds fifteen minutes.
    press(&mut state, KeyEvent::plain('l'));
    press(&mut state, KeyEvent::plain('j'));
    assert_eq!(
        state.schedule.timeboxes[1].time,
        Some(TimeSlotKind::Time(Time::hm(10, 15)))
    );
    // f pins the box; r swaps to absolute adjustments; Esc leaves.
    press(&mut state, KeyEvent::plain('f'));
    assert_eq!(state.schedule.timeboxes[1].adjust_policy, AdjustPolicy::Fixed);
    press(&mut state, KeyEvent::plain('r'));
    assert_eq!(state.time_mode, TimeMode::Absolute);
    press(&mut state, KeyEvent::new(KeyCode::Esc, KeyModifiers::none()));
    assert_eq!(state.mode, Mode::Cursor);
}

#[test]
fn transient_modes_revert_on_the_next_key() {
    let mut state = editor(two_line_schedule());
    press(&mut state, KeyEvent::plain('g'));
    assert_eq!(state.mode, Mode::GoTo);
    // An unbound key reverts to the parent mode without further effect.
    press(&mut state, KeyEvent::plain('z'));
    assert_eq!(state.mode, Mode::Cursor);
}

#[test]
fn cross_out_and_delete_time() {
    let mut state = editor(two_line_schedule());
    press(&mut state, KeyEvent::plain('j'));
    press(&mut state, KeyEvent::new(KeyCode::Char('a'), KeyModifiers::control()));
    assert!(state.schedule.timeboxes[1].done);
    press(&mut state, KeyEvent::plain('d'));
    press(&mut state, KeyEvent::plain('t'));
    assert_eq!(state.schedule.timeboxes[1].time, None);
    assert_eq!(state.mode, Mode::Cursor);
}

#[test]
fn quit_command_sets_the_flag() {
    let mut state = editor(two_line_schedule());
    press(&mut state, KeyEvent::new(KeyCode::Char('q'), KeyModifiers::control()));
    assert!(state.quit);
}

#[test]
fn binding_lookup_follows_the_table_order() {
    let table = bindings();
    let quit = Command::map(
        &KeyEvent::new(KeyCode::Char('q'), KeyModifiers::control()),
        &Mode::Time,
        &table,
    );
    assert!(matches!(quit, Some(Command::Quit)));
    let cut = Command::map(&KeyEvent::plain('d'), &Mode::Delete, &table);
    assert!(matches!(cut, Some(Command::CutCurrentLine)));
    let none = Command::map(&KeyEvent::plain('z'), &Mode::Cursor, &table);
    assert!(none.is_none());
    assert!(daily_planner::command::input_into_command("anything").is_none());
}

#[test]
fn status_bar_text_follows_the_mode() {
    let bar = StatusBar { mode: Mode::Insert, time_mode: TimeMode::Relative };
    assert_eq!(bar.text(), "-- INSERT --");
    let bar = StatusBar { mode: Mode::Time, time_mode: TimeMode::Absolute };
    assert_eq!(bar.text(), "-- ADJUST TIME (absolute) --");
    let bar = StatusBar { mode: Mode::Cursor, time_mode: TimeMode::Relative };
    assert_eq!(bar.text(), "");
    let bar = StatusBar { mode: Mode::GoTo, time_mode: TimeMode::Relative };
    assert_eq!(bar.text(), "goto +");
    let bar = StatusBar { mode: Mode::Delete, time_mode: TimeMode::Relative };
    assert_eq!(bar.text(), "delete +");
}
