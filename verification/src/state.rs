//! The editor state and the command interpreter.
//!
//! [`State`] owns the schedule, the cursor, the mode, and the render
//! geometry; [`State::act`] applies one command to it.  The outside event
//! loop reads keys, hands each one (with the live terminal cursor position)
//! to [`State::handle_key`], performs the returned physical cursor move, and
//! redraws when asked, feeding the fresh geometry back in through
//! [`State::set_geometry`].

use crate::command::Binding;
use crate::command::ColumnKind;
use crate::command::Command;
use crate::command::Dir;
use crate::command::MoveCursor;
use crate::command::grows_schedule;
use crate::command::simple_command;
use crate::command::spec_map_command;
use crate::command::supported_command;
use crate::cursor::ContentCursor;
use crate::cursor::MappedPos;
use crate::cursor::RenderGeometry;
use crate::cursor::TerminalPos;
use crate::cursor::line_chars;
use crate::cursor::pos_ok;
use crate::cursor::spec_map_to_content;
use crate::cursor::spec_map_to_line;
use crate::cursor::spec_map_to_terminal;
use crate::cursor::spec_move;
use crate::dom::AdjustPolicy;
use crate::dom::TimeBox;
use crate::dom::TimeBoxView;
use crate::dom::TimeSlotKind;
use crate::dom::empty_time_box;
use crate::dom::lemma_inherit_time_wf;
use crate::dom::spec_inherit_time;
use crate::dom::with_time;
use crate::edit_schedule::spec_edit_changed;
use crate::edit_schedule::spec_edit_dx;
use crate::edit_schedule::spec_edit_text;
use crate::keys::KeyCode;
use crate::keys::KeyEvent;
use crate::mode::Mode;
use crate::mode::TimeMode;
use crate::schedule::Schedule;
use crate::schedule::ScheduleView;
use crate::time::Duration;
use vstd::prelude::*;
use vstd::string::StrSliceExecFns;
use vstd::string::StringExecFns;

verus! {

/// What the status bar shows: the active mode and time sub-mode.
#[derive(Clone, Copy, Debug, PartialEq, Eq, Structural)]
pub struct StatusBar {
    pub mode: Mode,
    pub time_mode: TimeMode,
}

/// The status bar's text for a mode and time sub-mode.
pub open spec fn spec_status_text(mode: Mode, time_mode: TimeMode) -> Seq<char> {
    match mode {
        Mode::Cursor => ""@,
        Mode::Insert => "-- INSERT --"@,
        Mode::Time => match time_mode {
            TimeMode::Relative => "-- ADJUST TIME (relative) --"@,
            TimeMode::Absolute => "-- ADJUST TIME (absolute) --"@,
        },
        Mode::GoTo => "goto +"@,
        Mode::Delete => "delete +"@,
    }
}

impl StatusBar {
    /// The line of text the status bar renders.
    pub fn text(&self) -> (r: String)
        ensures
            r@ == spec_status_text(self.mode, self.time_mode),
    {
        let mut r = String::new();
        match self.mode {
            Mode::Cursor => r.append(""),
            Mode::Insert => r.append("-- INSERT --"),
            Mode::Time => match self.time_mode {
                TimeMode::Relative => r.append("-- ADJUST TIME (relative) --"),
                TimeMode::Absolute => r.append("-- ADJUST TIME (absolute) --"),
            },
            Mode::GoTo => r.append("goto +"),
            Mode::Delete => r.append("delete +"),
        }
        proof {
            assert(r@ =~= spec_status_text(self.mode, self.time_mode));
        }
        r
    }
}

/// The editor's whole state: the current cursor (absent until the first
/// render), the schedule's render geometry, the mode machinery, the schedule
/// itself, the time-adjust cursor side, the one-slot clipboard, and the quit
/// flag.
#[derive(Debug)]
pub struct State {
    pub cursor: Option<ContentCursor>,
    pub geom: RenderGeometry,
    pub mode: Mode,
    pub time_mode: TimeMode,
    pub parent_mode: Mode,
    pub schedule: Schedule,
    pub time_cursor: usize,
    pub clipboard: Option<TimeBox>,
    pub quit: bool,
}

/// The mathematical content of a [`State`].
#[verifier::ext_equal]
pub struct StateView {
    pub cursor: Option<ContentCursor>,
    pub geom: RenderGeometry,
    pub mode: Mode,
    pub time_mode: TimeMode,
    pub parent_mode: Mode,
    pub schedule: ScheduleView,
    pub time_cursor: usize,
    pub clipboard: Option<TimeBoxView>,
    pub quit: bool,
}

impl View for State {
    type V = StateView;

    open spec fn view(&self) -> StateView {
        StateView {
            cursor: self.cursor,
            geom: self.geom,
            mode: self.mode,
            time_mode: self.time_mode,
            parent_mode: self.parent_mode,
            schedule: self.schedule@,
            time_cursor: self.time_cursor,
            clipboard: match self.clipboard {
                Some(b) => Some(b@),
                None => None,
            },
            quit: self.quit,
        }
    }
}

/// The cursor's row lies within the rendered region.
pub open spec fn line_ok(pos: TerminalPos, geom: RenderGeometry) -> bool {
    spec_map_to_line(pos.vpos as int, geom.render_y as int, geom.render_height as int) is Some
}

impl State {
    /// The state invariant the interpreter maintains: geometry consistent
    /// with the schedule, a non-empty schedule with well-formed times, a
    /// cursor (if any) on a rendered row, and a clipboard (if any) whose box
    /// fits a schedule line.
    pub open spec fn inv(self) -> bool {
        &&& self.schedule@.fits_terminal()
        &&& self.geom.render_y + self.geom.render_height <= u16::MAX
        &&& self.schedule@.wf()
        &&& 1 <= self.schedule@.timeboxes.len()
        &&& (self.cursor matches Some(c) ==> line_ok(c.pos, self.geom))
        &&& (self.clipboard matches Some(b) ==> b@.time_wf() && b@.activity.summary.len()
            <= u16::MAX - 23)
    }

    /// A fresh editor over a schedule: no cursor yet, zero geometry, cursor
    /// mode, relative time mode, empty clipboard.
    pub fn new(schedule: Schedule) -> (r: State)
        ensures
            r@ == (StateView {
                cursor: None,
                geom: RenderGeometry { render_y: 0, render_height: 0 },
                mode: Mode::Cursor,
                time_mode: TimeMode::Relative,
                parent_mode: Mode::Cursor,
                schedule: schedule@,
                time_cursor: 0,
                clipboard: None,
                quit: false,
            }),
    {
        State {
            cursor: None,
            geom: RenderGeometry { render_y: 0, render_height: 0 },
            mode: Mode::Cursor,
            time_mode: TimeMode::Relative,
            parent_mode: Mode::Cursor,
            schedule,
            time_cursor: 0,
            clipboard: None,
            quit: false,
        }
    }
}

/// The horizontal delta of a direction.
pub open spec fn dir_dx(d: Dir) -> int {
    match d {
        Dir::Left => -1,
        Dir::Right => 1,
        Dir::Up => 0,
        Dir::Down => 0,
    }
}

/// The vertical delta of a direction.
pub open spec fn dir_dy(d: Dir) -> int {
    match d {
        Dir::Up => -1,
        Dir::Down => 1,
        Dir::Left => 0,
        Dir::Right => 0,
    }
}

/// How one simple command transforms the state, and what it returns: the
/// full transition relation of the editor's command machine.  `pre`/`post`
/// are the states before and after, `cur_pos` the live terminal cursor
/// position, `redraw` the returned redraw flag and `moved` the physical
/// cursor move the command asks for.
#[verifier::opaque]
pub open spec fn act_post(
    pre: StateView,
    post: StateView,
    cmd: Command,
    cur_pos: TerminalPos,
    redraw: bool,
    moved: Option<TerminalPos>,
) -> bool {
    let c0 = pre.cursor.unwrap();
    let line = (c0.pos.vpos - pre.geom.render_y) as int;
    let b = pre.schedule.timeboxes[line];
    match cmd {
        Command::Quit => redraw == false && moved is None && post == (StateView {
            quit: true,
            ..pre
        }),
        Command::MoveCursor(mc) => match mc {
            MoveCursor::Dir(d) => {
                let mv = spec_move(
                    cur_pos,
                    c0.ghost_col(),
                    dir_dx(d),
                    dir_dy(d),
                    pre.geom,
                    pre.schedule,
                );
                &&& redraw == false
                &&& moved == mv
                &&& (mv matches Some(np) ==> post == (StateView {
                    cursor: Some(
                        ContentCursor {
                            hghost: if dir_dx(d) != 0 {
                                np.hpos
                            } else {
                                c0.hghost
                            },
                            pos: np,
                        },
                    ),
                    ..pre
                }))
                &&& (mv is None ==> post == pre)
            },
            _ => false,
        },
        Command::InsertMode => redraw && moved is None && post == (StateView {
            mode: Mode::Insert,
            ..pre
        }),
        Command::CursorMode => redraw && moved is None && post == (StateView {
            mode: Mode::Cursor,
            ..pre
        }),
        Command::TimeMode => {
            &&& redraw
            &&& moved is None
            &&& (b.time is None ==> post == (StateView {
                mode: Mode::Time,
                time_mode: TimeMode::Absolute,
                schedule: pre.schedule.with_box(
                    line,
                    with_time(b, Some(spec_inherit_time(pre.schedule, line))),
                ),
                ..pre
            }))
            &&& (b.time is Some ==> post == (StateView {
                mode: Mode::Time,
                time_mode: TimeMode::Relative,
                ..pre
            }))
        },
        Command::GoToMode => redraw && moved is None && post == (StateView {
            parent_mode: pre.mode,
            mode: Mode::GoTo,
            ..pre
        }),
        Command::DeleteMode => redraw && moved is None && post == (StateView {
            mode: Mode::Delete,
            ..pre
        }),
        Command::InsertTimeBoxBelow => {
            let geom1 = RenderGeometry {
                render_y: pre.geom.render_y,
                render_height: (pre.geom.render_height + 1) as u16,
            };
            let sched1 = ScheduleView {
                timeboxes: pre.schedule.timeboxes.insert(line + 1, empty_time_box()),
                ..pre.schedule
            };
            let mv = spec_map_to_terminal(
                MappedPos { col: 0, line: (line + 1) as usize },
                geom1,
                sched1,
            );
            &&& redraw
            &&& moved == mv
            &&& (mv matches Some(np) ==> post == (StateView {
                schedule: sched1,
                geom: geom1,
                cursor: Some(ContentCursor { hghost: c0.hghost, pos: np }),
                ..pre
            }))
            &&& (mv is None ==> post == (StateView { schedule: sched1, geom: geom1, ..pre }))
        },
        Command::InsertTimeBoxAbove => {
            let sched1 = ScheduleView {
                timeboxes: pre.schedule.timeboxes.insert(line, empty_time_box()),
                ..pre.schedule
            };
            let mv = spec_map_to_terminal(
                MappedPos { col: 0, line: line as usize },
                pre.geom,
                sched1,
            );
            &&& redraw
            &&& moved == mv
            &&& (mv matches Some(np) ==> post == (StateView {
                schedule: sched1,
                cursor: Some(ContentCursor { hghost: c0.hghost, pos: np }),
                ..pre
            }))
            &&& (mv is None ==> post == (StateView { schedule: sched1, ..pre }))
        },
        Command::ToggleCrossOver => redraw && moved is None && post == (StateView {
            schedule: pre.schedule.with_box(line, (TimeBoxView { done: !b.done, ..b })),
            ..pre
        }),
        Command::ToggleTimeAdjustPolicyFixed => redraw && moved is None && post == (StateView {
            schedule: pre.schedule.with_box(
                line,
                (TimeBoxView {
                    adjust_policy: match b.adjust_policy {
                        AdjustPolicy::Normal => AdjustPolicy::Fixed,
                        AdjustPolicy::Fixed => AdjustPolicy::Normal,
                    },
                    ..b
                }),
            ),
            ..pre
        }),
        Command::ToggleBetweenSpanAndTime => {
            let nt = match b.time {
                Some(slot) => slot.spec_toggle(),
                None => spec_inherit_time(pre.schedule, line),
            };
            redraw && moved is None && post == (StateView {
                schedule: pre.schedule.with_box(line, with_time(b, Some(nt))),
                ..pre
            })
        },
        Command::PasteAbove => match pre.clipboard {
            Some(cb) => redraw && moved is None && post == (StateView {
                schedule: ScheduleView {
                    timeboxes: pre.schedule.timeboxes.insert(line, cb),
                    ..pre.schedule
                },
                ..pre
            }),
            None => !redraw && moved is None && post == pre,
        },
        Command::PasteBelow => match pre.clipboard {
            Some(cb) => {
                let len = pre.schedule.timeboxes.len() as int;
                let l2 = if line >= len {
                    len - 1
                } else {
                    line
                };
                redraw && moved is None && post == (StateView {
                    schedule: ScheduleView {
                        timeboxes: pre.schedule.timeboxes.insert(l2 + 1, cb),
                        ..pre.schedule
                    },
                    ..pre
                })
            },
            None => !redraw && moved is None && post == pre,
        },
        Command::MoveTimeCursor => !redraw && moved is None && post == (StateView {
            time_cursor: if pre.time_cursor == 0 {
                1usize
            } else {
                0usize
            },
            ..pre
        }),
        Command::SwapTimeSubMode => redraw && moved is None && post == (StateView {
            time_mode: match pre.time_mode {
                TimeMode::Relative => TimeMode::Absolute,
                TimeMode::Absolute => TimeMode::Relative,
            },
            ..pre
        }),
        Command::AdjustTime { hours, minutes } => {
            let d = hours * 60 + minutes;
            &&& redraw
            &&& moved is None
            &&& (pre.time_mode is Relative ==> post == (StateView {
                schedule: pre.schedule.spec_cascade(line, d, pre.time_cursor == 0),
                ..pre
            }))
            &&& (pre.time_mode is Absolute ==> post == (StateView {
                schedule: pre.schedule.with_box(
                    line,
                    b.spec_adjust(d, pre.time_cursor == 0),
                ),
                ..pre
            }))
        },
        Command::DeleteTime => redraw && moved is None && post == (StateView {
            schedule: pre.schedule.with_box(line, with_time(b, None)),
            ..pre
        }),
        Command::GoToColumn(kind) => {
            let x = match kind {
                ColumnKind::Index(i) => i as int,
                ColumnKind::Last => line_chars(pre.schedule, line).len() as int,
            };
            let mv = spec_map_to_terminal(
                MappedPos { col: x as usize, line: line as usize },
                pre.geom,
                pre.schedule,
            );
            &&& moved == mv
            &&& redraw == (mv is Some)
            &&& (mv matches Some(np) ==> post == (StateView {
                cursor: Some(ContentCursor { hghost: c0.hghost, pos: np }),
                ..pre
            }))
            &&& (mv is None ==> post == pre)
        },
        Command::CutCurrentLine => {
            if pre.schedule.timeboxes.len() > 1 {
                let sched1 = ScheduleView {
                    timeboxes: pre.schedule.timeboxes.remove(line),
                    ..pre.schedule
                };
                redraw && moved is None && post == (StateView {
                    schedule: sched1,
                    clipboard: Some(b),
                    cursor: Some(
                        ContentCursor {
                            hghost: c0.hghost,
                            pos: ContentCursor::spec_clamp(c0.pos, pre.geom, sched1),
                        },
                    ),
                    ..pre
                })
            } else {
                !redraw && moved is None && post == pre
            }
        },
        Command::OpenCommandInput => false,
        Command::Multi(_) => true,
    }
}

impl State {
    /// Applies one command to the state, sequencing the parts of a `Multi`
    /// command in order.  Returns whether a full redraw is needed and the
    /// physical cursor move to perform, if any.
    pub fn act(&mut self, cmd: &Command, cur_pos: TerminalPos) -> (r: (bool, Option<TerminalPos>))
        requires
            old(self).inv(),
            old(self).cursor is Some,
            supported_command(*cmd),
            old(self).geom.render_y + old(self).geom.render_height < u16::MAX,
            old(self)@.schedule.timeboxes.len() < u16::MAX,
            old(self)@.schedule.timeboxes.len() <= old(self).geom.render_height + 1,
            old(self).geom.render_height <= old(self)@.schedule.timeboxes.len(),
        ensures
            final(self).inv(),
            final(self).cursor is Some,
            act_post(old(self)@, final(self)@, *cmd, cur_pos, r.0, r.1),
            !(cmd is CutCurrentLine) ==> final(self).geom.render_height <= final(self)@.schedule.timeboxes.len(),
    {
        match cmd {
            Command::Multi(commands) => {
                let ghost v = commands@;
                let mut redraw = false;
                let mut last: Option<TerminalPos> = None;
                let mut cur = cur_pos;
                let n = commands.len();
                let mut i: usize = 0;
                while i < n
                    invariant
                        i <= n,
                        n == v.len(),
                        v == commands@,
                        self.inv(),
                        self.cursor is Some,
                        self.geom.render_height <= self@.schedule.timeboxes.len(),
                        forall|j: int| 0 <= j < v.len() ==> simple_command(#[trigger] v[j]) && !(
                        v[j] is CutCurrentLine),
                        forall|j: int, k: int| 0 <= j < k < v.len() ==> !(grows_schedule(
                            #[trigger] v[j],
                        ) && grows_schedule(#[trigger] v[k])),
                        forall|j: int|
                            i <= j < v.len() && grows_schedule(#[trigger] v[j]) ==> self.geom.render_y
                                + self.geom.render_height < u16::MAX
                                && self@.schedule.timeboxes.len() < u16::MAX,
                    decreases n - i,
                {
                    let sub = &commands[i];
                    proof {
                        assert(simple_command(v[i as int]));
                        assert(!(v[i as int] is CutCurrentLine));
                        if grows_schedule(v[i as int]) {
                            assert(self.geom.render_y + self.geom.render_height < u16::MAX
                                && self@.schedule.timeboxes.len() < u16::MAX);
                        }
                    }
                    let (rd, mv) = self.act_one(sub, cur);
                    if rd {
                        redraw = true;
                    }
                    match mv {
                        Some(np) => {
                            cur = np;
                            last = Some(np);
                        }
                        None => {}
                    }
                    i = i + 1;
                }
                proof {
                    reveal(act_post);
                }
                (redraw, last)
            }
            _ => self.act_one(cmd, cur_pos),
        }
    }

    /// Applies one simple (non-`Multi`) command; the transition is exactly
    /// [`act_post`].
    #[verifier::rlimit(100)]
    fn act_one(&mut self, cmd: &Command, cur_pos: TerminalPos) -> (r: (bool, Option<TerminalPos>))
        requires
            old(self).inv(),
            old(self).cursor is Some,
            simple_command(*cmd),
            cmd is InsertTimeBoxBelow ==> old(self).geom.render_y + old(self).geom.render_height
                < u16::MAX,
            grows_schedule(*cmd) ==> old(self)@.schedule.timeboxes.len() < u16::MAX,
            cmd is CutCurrentLine ==> old(self)@.schedule.timeboxes.len() <= old(self).geom.render_height + 1,
            old(self).geom.render_height <= old(self)@.schedule.timeboxes.len(),
        ensures
            final(self).inv(),
            final(self).cursor is Some,
            act_post(old(self)@, final(self)@, *cmd, cur_pos, r.0, r.1),
            final(self).geom.render_y == old(self).geom.render_y,
            !(cmd is CutCurrentLine) ==> final(self).geom.render_height <= final(self)@.schedule.timeboxes.len(),
            !grows_schedule(*cmd) && !(cmd is CutCurrentLine) ==> final(self).geom == old(self).geom && final(self)@.schedule.timeboxes.len() == old(self)@.schedule.timeboxes.len(),
    {
        proof {
            reveal(act_post);
        }
        let cursor0 = self.cursor.unwrap();
        let line = cursor0.map_to_line(self.geom);
        proof {
            assert(line < self.geom.render_height);
            assert(line < self@.schedule.timeboxes.len());
        }
        match cmd {
            Command::Quit => {
                self.quit = true;
                proof {
                    assert(self@ =~= (StateView { quit: true, ..old(self)@ }));
                }
                (false, None)
            }
            Command::MoveCursor(mc) => {
                match mc {
                    MoveCursor::Dir(d) => {
                        let mut cursor = cursor0;
                        let mv = match d {
                            Dir::Up => cursor.move_up(cur_pos, &self.schedule, self.geom),
                            Dir::Down => cursor.move_down(cur_pos, &self.schedule, self.geom),
                            Dir::Left => cursor.move_left(cur_pos, &self.schedule, self.geom),
                            Dir::Right => cursor.move_right(cur_pos, &self.schedule, self.geom),
                        };
                        self.cursor = Some(cursor);
                        proof {
                            match mv {
                                Some(np) => {
                                    assert(self@ =~= (StateView {
                                        cursor: Some(
                                            ContentCursor {
                                                hghost: if dir_dx(*d) != 0 {
                                                    np.hpos
                                                } else {
                                                    cursor0.hghost
                                                },
                                                pos: np,
                                            },
                                        ),
                                        ..old(self)@
                                    }));
                                }
                                None => {
                                    assert(self@ =~= old(self)@);
                                }
                            }
                        }
                        (false, mv)
                    }
                    // Top and bottom jumps are not implemented; excluded by
                    // precondition.
                    _ => {
                        proof {
                            assert(false);
                        }
                        (false, None)
                    }
                }
            }
            Command::InsertMode => {
                self.mode = Mode::Insert;
                proof {
                    assert(self@ =~= (StateView { mode: Mode::Insert, ..old(self)@ }));
                }
                (true, None)
            }
            Command::CursorMode => {
                self.mode = Mode::Cursor;
                proof {
                    assert(self@ =~= (StateView { mode: Mode::Cursor, ..old(self)@ }));
                }
                (true, None)
            }
            Command::TimeMode => {
                self.mode = Mode::Time;
                // If time mode was entered on something without time, let the
                // box inherit one and start in absolute mode.
                let has_time = self.schedule.timeboxes[line].time.is_some();
                if !has_time {
                    let inherited = TimeSlotKind::inherit_time(line, &self.schedule);
                    let mut b = self.schedule.timeboxes[line].clone();
                    b.time = Some(inherited);
                    self.schedule.timeboxes[line] = b;
                    self.time_mode = TimeMode::Absolute;
                    proof {
                        lemma_inherit_time_wf(old(self)@.schedule, line as int);
                        assert(self@.schedule.timeboxes =~= old(self)@.schedule.timeboxes.update(
                            line as int,
                            with_time(
                                old(self)@.schedule.timeboxes[line as int],
                                Some(spec_inherit_time(old(self)@.schedule, line as int)),
                            ),
                        ));
                        assert(self@ =~= (StateView {
                            mode: Mode::Time,
                            time_mode: TimeMode::Absolute,
                            schedule: old(self)@.schedule.with_box(
                                line as int,
                                with_time(
                                    old(self)@.schedule.timeboxes[line as int],
                                    Some(spec_inherit_time(old(self)@.schedule, line as int)),
                                ),
                            ),
                            ..old(self)@
                        }));
                        assert forall|i: int| 0 <= i < self@.schedule.timeboxes.len() implies (
                        #[trigger] self@.schedule.timeboxes[i]).time_wf() by {
                            assert(old(self)@.schedule.timeboxes[i].time_wf());
                        }
                        assert forall|i: int|
                            0 <= i < self@.schedule.timeboxes.len() implies (
                        #[trigger] self@.schedule.timeboxes[i]).activity.summary.len() <= u16::MAX
                            - 23 by {
                            assert(old(self)@.schedule.timeboxes[i].activity.summary.len()
                                <= u16::MAX - 23);
                        }
                    }
                } else {
                    self.time_mode = TimeMode::Relative;
                    proof {
                        assert(self@ =~= (StateView {
                            mode: Mode::Time,
                            time_mode: TimeMode::Relative,
                            ..old(self)@
                        }));
                    }
                }
                (true, None)
            }
            Command::GoToMode => {
                // Store current mode as parent mode
                self.parent_mode = self.mode;
                self.mode = Mode::GoTo;
                proof {
                    assert(self@ =~= (StateView {
                        parent_mode: old(self)@.mode,
                        mode: Mode::GoTo,
                        ..old(self)@
                    }));
                }
                (true, None)
            }
            Command::DeleteMode => {
                self.mode = Mode::Delete;
                proof {
                    assert(self@ =~= (StateView { mode: Mode::Delete, ..old(self)@ }));
                }
                (true, None)
            }
            Command::InsertTimeBoxBelow => {
                self.schedule.insert_time_box(line + 1);
                // Grow the recorded height so the cursor can move onto the
                // new line before the next render.
                self.geom = RenderGeometry {
                    render_y: self.geom.render_y,
                    render_height: self.geom.render_height + 1,
                };
                proof {
                    old(self)@.schedule.timeboxes.insert_ensures(
                        line as int + 1,
                        empty_time_box(),
                    );
                }
                let mut cursor = cursor0;
                let target = MappedPos { col: 0, line: line + 1 };
                let mv = cursor.move_to_content(&target, &self.schedule, self.geom);
                self.cursor = Some(cursor);
                proof {
                    match mv {
                        Some(np) => {
                            assert(self@ =~= (StateView {
                                schedule: self@.schedule,
                                geom: self@.geom,
                                cursor: Some(ContentCursor { hghost: cursor0.hghost, pos: np }),
                                ..old(self)@
                            }));
                        }
                        None => {
                            assert(self@ =~= (StateView {
                                schedule: self@.schedule,
                                geom: self@.geom,
                                ..old(self)@
                            }));
                        }
                    }
                }
                (true, mv)
            }
            Command::InsertTimeBoxAbove => {
                self.schedule.insert_time_box(line);
                proof {
                    old(self)@.schedule.timeboxes.insert_ensures(line as int, empty_time_box());
                }
                let mut cursor = cursor0;
                let target = MappedPos { col: 0, line };
                let mv = cursor.move_to_content(&target, &self.schedule, self.geom);
                self.cursor = Some(cursor);
                proof {
                    match mv {
                        Some(np) => {
                            assert(self@ =~= (StateView {
                                schedule: self@.schedule,
                                cursor: Some(ContentCursor { hghost: cursor0.hghost, pos: np }),
                                ..old(self)@
                            }));
                        }
                        None => {
                            assert(self@ =~= (StateView { schedule: self@.schedule, ..old(self)@ }));
                        }
                    }
                }
                (true, mv)
            }
            Command::ToggleCrossOver => {
                let mut b = self.schedule.timeboxes[line].clone();
                b.done = !b.done;
                let ghost bv = b@;
                self.schedule.timeboxes[line] = b;
                proof {
                    let pre = old(self)@;
                    assert(bv =~= (TimeBoxView {
                        done: !pre.schedule.timeboxes[line as int].done,
                        ..pre.schedule.timeboxes[line as int]
                    }));
                    assert(self@.schedule.timeboxes =~= pre.schedule.timeboxes.update(
                        line as int,
                        bv,
                    ));
                    assert(self@ =~= (StateView {
                        schedule: pre.schedule.with_box(line as int, bv),
                        ..pre
                    }));
                    self.lemma_box_swap(pre, line as int);
                }
                (true, None)
            }
            Command::ToggleTimeAdjustPolicyFixed => {
                let mut b = self.schedule.timeboxes[line].clone();
                b.adjust_policy = match b.adjust_policy {
                    AdjustPolicy::Normal => AdjustPolicy::Fixed,
                    AdjustPolicy::Fixed => AdjustPolicy::Normal,
                };
                let ghost bv = b@;
                self.schedule.timeboxes[line] = b;
                proof {
                    let pre = old(self)@;
                    assert(bv =~= (TimeBoxView {
                        adjust_policy: match pre.schedule.timeboxes[line as int].adjust_policy {
                            AdjustPolicy::Normal => AdjustPolicy::Fixed,
                            AdjustPolicy::Fixed => AdjustPolicy::Normal,
                        },
                        ..pre.schedule.timeboxes[line as int]
                    }));
                    assert(self@.schedule.timeboxes =~= pre.schedule.timeboxes.update(
                        line as int,
                        bv,
                    ));
                    assert(self@ =~= (StateView {
                        schedule: pre.schedule.with_box(line as int, bv),
                        ..pre
                    }));
                    self.lemma_box_swap(pre, line as int);
                }
                (true, None)
            }
            Command::ToggleBetweenSpanAndTime => {
                let new_time = match self.schedule.timeboxes[line].time {
                    Some(slot) => match slot {
                        TimeSlotKind::Time(t) => TimeSlotKind::Span(t, t),
                        TimeSlotKind::Span(start, _end) => TimeSlotKind::Time(start),
                    },
                    None => {
                        // No time -> inherit one
                        TimeSlotKind::inherit_time(line, &self.schedule)
                    }
                };
                let mut b = self.schedule.timeboxes[line].clone();
                b.time = Some(new_time);
                let ghost bv = b@;
                self.schedule.timeboxes[line] = b;
                proof {
                    let pre = old(self)@;
                    lemma_inherit_time_wf(pre.schedule, line as int);
                    assert(bv =~= with_time(pre.schedule.timeboxes[line as int], Some(new_time)));
                    assert(self@.schedule.timeboxes =~= pre.schedule.timeboxes.update(
                        line as int,
                        bv,
                    ));
                    assert(self@ =~= (StateView {
                        schedule: pre.schedule.with_box(line as int, bv),
                        ..pre
                    }));
                    self.lemma_box_swap(pre, line as int);
                }
                (true, None)
            }
            Command::PasteAbove => {
                match &self.clipboard {
                    Some(content) => {
                        let pasted = content.clone();
                        self.schedule.timeboxes.insert(line, pasted);
                        proof {
                            old(self)@.schedule.timeboxes.insert_ensures(
                                line as int,
                                old(self)@.clipboard.unwrap(),
                            );
                            assert(self@.schedule.timeboxes =~= old(self)@.schedule.timeboxes.insert(line as int, old(self)@.clipboard.unwrap()));
                            assert(self@ =~= (StateView {
                                schedule: (ScheduleView {
                                    timeboxes: old(self)@.schedule.timeboxes.insert(
                                        line as int,
                                        old(self)@.clipboard.unwrap(),
                                    ),
                                    ..old(self)@.schedule
                                }),
                                ..old(self)@
                            }));
                        }
                        (true, None)
                    }
                    None => (false, None),
                }
            }
            Command::PasteBelow => {
                match &self.clipboard {
                    Some(content) => {
                        let pasted = content.clone();
                        let len = self.schedule.timeboxes.len();
                        let at = if line >= len {
                            len - 1
                        } else {
                            line
                        };
                        self.schedule.timeboxes.insert(at + 1, pasted);
                        proof {
                            old(self)@.schedule.timeboxes.insert_ensures(
                                at as int + 1,
                                old(self)@.clipboard.unwrap(),
                            );
                            assert(self@.schedule.timeboxes =~= old(self)@.schedule.timeboxes.insert(at as int + 1, old(self)@.clipboard.unwrap()));
                            assert(self@ =~= (StateView {
                                schedule: (ScheduleView {
                                    timeboxes: old(self)@.schedule.timeboxes.insert(
                                        at as int + 1,
                                        old(self)@.clipboard.unwrap(),
                                    ),
                                    ..old(self)@.schedule
                                }),
                                ..old(self)@
                            }));
                        }
                        (true, None)
                    }
                    None => (false, None),
                }
            }
            Command::MoveTimeCursor => {
                if self.time_cursor == 0 {
                    self.time_cursor = 1;
                } else {
                    self.time_cursor = 0;
                }
                proof {
                    assert(self@ =~= (StateView {
                        time_cursor: if old(self)@.time_cursor == 0 {
                            1usize
                        } else {
                            0usize
                        },
                        ..old(self)@
                    }));
                }
                (false, None)
            }
            Command::SwapTimeSubMode => {
                self.time_mode = match self.time_mode {
                    TimeMode::Relative => TimeMode::Absolute,
                    TimeMode::Absolute => TimeMode::Relative,
                };
                proof {
                    assert(self@ =~= (StateView {
                        time_mode: match old(self)@.time_mode {
                            TimeMode::Relative => TimeMode::Absolute,
                            TimeMode::Absolute => TimeMode::Relative,
                        },
                        ..old(self)@
                    }));
                }
                (true, None)
            }
            Command::AdjustTime { hours, minutes } => {
                let adjust_duration = Duration::hm(*hours, *minutes);
                match self.time_mode {
                    TimeMode::Relative => {
                        self.schedule.adjust_times_relative(
                            line,
                            &adjust_duration,
                            self.time_cursor,
                        );
                        proof {
                            crate::schedule::lemma_cascade_fits(
                                old(self)@.schedule,
                                line as int,
                                *hours * 60 + *minutes,
                                old(self)@.time_cursor == 0,
                            );
                            assert(self@ =~= (StateView {
                                schedule: old(self)@.schedule.spec_cascade(
                                    line as int,
                                    *hours * 60 + *minutes,
                                    old(self)@.time_cursor == 0,
                                ),
                                ..old(self)@
                            }));
                        }
                    }
                    TimeMode::Absolute => {
                        self.schedule.adjust_time_absolute(
                            line,
                            &adjust_duration,
                            self.time_cursor,
                        );
                        proof {
                            let pre = old(self)@;
                            crate::dom::lemma_box_adjust_wf(
                                pre.schedule.timeboxes[line as int],
                                *hours * 60 + *minutes,
                                pre.time_cursor == 0,
                            );
                            assert(self@ =~= (StateView {
                                schedule: pre.schedule.with_box(
                                    line as int,
                                    pre.schedule.timeboxes[line as int].spec_adjust(
                                        *hours * 60 + *minutes,
                                        pre.time_cursor == 0,
                                    ),
                                ),
                                ..pre
                            }));
                            self.lemma_box_swap(pre, line as int);
                        }
                    }
                }
                (true, None)
            }
            Command::DeleteTime => {
                let mut b = self.schedule.timeboxes[line].clone();
                b.time = None;
                let ghost bv = b@;
                self.schedule.timeboxes[line] = b;
                proof {
                    let pre = old(self)@;
                    assert(bv =~= with_time(pre.schedule.timeboxes[line as int], None));
                    assert(self@.schedule.timeboxes =~= pre.schedule.timeboxes.update(
                        line as int,
                        bv,
                    ));
                    assert(self@ =~= (StateView {
                        schedule: pre.schedule.with_box(line as int, bv),
                        ..pre
                    }));
                    self.lemma_box_swap(pre, line as int);
                }
                (true, None)
            }
            Command::GoToColumn(kind) => {
                let mut cursor = cursor0;
                let mv = match kind {
                    ColumnKind::Index(idx) => cursor.move_to_column(
                        *idx,
                        &self.schedule,
                        self.geom,
                    ),
                    ColumnKind::Last => {
                        let x = self.schedule.timeboxes[line].activity.summary.as_str()
                            .unicode_len();
                        cursor.move_to_column(x, &self.schedule, self.geom)
                    }
                };
                self.cursor = Some(cursor);
                let moved = mv.is_some();
                proof {
                    match mv {
                        Some(np) => {
                            assert(self@ =~= (StateView {
                                cursor: Some(ContentCursor { hghost: cursor0.hghost, pos: np }),
                                ..old(self)@
                            }));
                        }
                        None => {
                            assert(self@ =~= old(self)@);
                        }
                    }
                }
                (moved, mv)
            }
            Command::CutCurrentLine => {
                if self.schedule.timeboxes.len() > 1 {
                    let removed = self.schedule.timeboxes.remove(line);
                    proof {
                        old(self)@.schedule.timeboxes.remove_ensures(line as int);
                        assert(self@.schedule.timeboxes =~= old(self)@.schedule.timeboxes.remove(
                            line as int,
                        ));
                    }
                    let mut cursor = cursor0;
                    cursor.clamp_to_content(&self.schedule, self.geom);
                    self.cursor = Some(cursor);
                    self.clipboard = Some(removed);
                    proof {
                        let sched1 = ScheduleView {
                            timeboxes: old(self)@.schedule.timeboxes.remove(line as int),
                            ..old(self)@.schedule
                        };
                        assert(self@.schedule =~= sched1);
                        assert(self@ =~= (StateView {
                            schedule: sched1,
                            clipboard: Some(old(self)@.schedule.timeboxes[line as int]),
                            cursor: Some(
                                ContentCursor {
                                    hghost: cursor0.hghost,
                                    pos: ContentCursor::spec_clamp(
                                        cursor0.pos,
                                        old(self)@.geom,
                                        sched1,
                                    ),
                                },
                            ),
                            ..old(self)@
                        }));
                    }
                    (true, None)
                } else {
                    // The schedule must never become empty: cutting the last
                    // remaining line is refused.
                    (false, None)
                }
            }
            // Excluded by precondition.
            Command::OpenCommandInput | Command::Multi(_) => {
                proof {
                    assert(false);
                }
                (false, None)
            }
        }
    }

    /// Replacing one box by another with the same text length and a
    /// well-formed slot keeps the state invariant.
    proof fn lemma_box_swap(&self, pre: StateView, line: int)
        requires
            0 <= line < pre.schedule.timeboxes.len(),
            self@.schedule.timeboxes.len() == pre.schedule.timeboxes.len(),
            forall|i: int| 0 <= i < pre.schedule.timeboxes.len() && i != line
                ==> #[trigger] self@.schedule.timeboxes[i] == pre.schedule.timeboxes[i],
            self@.schedule.timeboxes[line].time_wf(),
            self@.schedule.timeboxes[line].activity.summary.len()
                == pre.schedule.timeboxes[line].activity.summary.len(),
            pre.schedule.fits_terminal(),
            forall|i: int| 0 <= i < pre.schedule.timeboxes.len()
                ==> (#[trigger] pre.schedule.timeboxes[i]).time_wf(),
        ensures
            forall|i: int| 0 <= i < self@.schedule.timeboxes.len()
                ==> (#[trigger] self@.schedule.timeboxes[i]).time_wf(),
            forall|i: int| 0 <= i < self@.schedule.timeboxes.len()
                ==> (#[trigger] self@.schedule.timeboxes[i]).activity.summary.len() <= u16::MAX
                    - 23,
    {
        assert forall|i: int| 0 <= i < self@.schedule.timeboxes.len() implies (
        #[trigger] self@.schedule.timeboxes[i]).time_wf() by {
            if i != line {
                assert(pre.schedule.timeboxes[i].time_wf());
            }
        }
        assert forall|i: int| 0 <= i < self@.schedule.timeboxes.len() implies (
        #[trigger] self@.schedule.timeboxes[i]).activity.summary.len() <= u16::MAX - 23 by {
            assert(pre.schedule.timeboxes[i].activity.summary.len() <= u16::MAX - 23);
        }
    }
}

impl State {
    /// Records a fresh render's geometry (the schedule's top row and its
    /// full height) and clamps the cursor into it, re-establishing the
    /// interpreter's preconditions after a redraw.
    pub fn set_geometry(&mut self, render_y: u16)
        requires
            1 <= old(self)@.schedule.timeboxes.len(),
            render_y + old(self)@.schedule.timeboxes.len() < u16::MAX,
            old(self)@.schedule.wf(),
            forall|i: int| 0 <= i < old(self)@.schedule.timeboxes.len()
                ==> (#[trigger] old(self)@.schedule.timeboxes[i]).activity.summary.len()
                    <= u16::MAX - 23,
            old(self)@.clipboard matches Some(b) ==> b.time_wf() && b.activity.summary.len()
                <= u16::MAX - 23,
        ensures
            final(self).inv(),
            final(self).geom == (RenderGeometry {
                render_y,
                render_height: old(self)@.schedule.timeboxes.len() as u16,
            }),
            final(self).geom.render_y + final(self).geom.render_height < u16::MAX,
            final(self)@.schedule == old(self)@.schedule,
            final(self)@.schedule.timeboxes.len() == final(self).geom.render_height,
            final(self)@ == (StateView {
                geom: final(self).geom,
                cursor: final(self)@.cursor,
                ..old(self)@
            }),
            old(self).cursor is Some ==> final(self).cursor is Some,
            old(self).cursor is None ==> final(self).cursor is None,
            old(self).cursor matches Some(c) ==> final(self).cursor == Some(
                ContentCursor {
                    hghost: c.hghost,
                    pos: ContentCursor::spec_clamp(c.pos, final(self).geom, old(self)@.schedule),
                },
            ),
    {
        let h = self.schedule.timeboxes.len() as u16;
        self.geom = RenderGeometry { render_y, render_height: h };
        match self.cursor {
            Some(c) => {
                let mut clamped = c;
                clamped.clamp_to_content(&self.schedule, self.geom);
                self.cursor = Some(clamped);
            }
            None => {}
        }
    }

    /// Handles one key press: looks the key up in the binding table for the
    /// current mode, reverts a transient mode to its parent before
    /// dispatching, applies the bound command if any, and otherwise (in
    /// insert mode) edits the schedule text.  Returns whether a full redraw
    /// is needed and the physical cursor move to perform.
    #[verifier::rlimit(100)]
    pub fn handle_key(
        &mut self,
        key: &KeyEvent,
        cur_pos: TerminalPos,
        bindings: &Vec<Binding>,
    ) -> (r: (bool, Option<TerminalPos>))
        requires
            old(self).inv(),
            old(self).cursor is Some,
            old(self).geom.render_y + old(self).geom.render_height < u16::MAX,
            old(self)@.schedule.timeboxes.len() < u16::MAX,
            old(self)@.schedule.timeboxes.len() <= old(self).geom.render_height + 1,
            old(self).geom.render_height <= old(self)@.schedule.timeboxes.len(),
            forall|i: int| 0 <= i < bindings@.len() ==> supported_command(
                (#[trigger] bindings@[i]).command,
            ),
            ({
                let eff = if old(self).mode.spec_is_transient() {
                    old(self).parent_mode
                } else {
                    old(self).mode
                };
                (spec_map_command(bindings@, *key, old(self).mode) is None && eff == Mode::Insert)
                    ==> ({
                    let c = old(self).cursor.unwrap();
                    &&& pos_ok(c.pos, old(self).geom, old(self)@.schedule)
                    &&& (key.code matches KeyCode::Char(_) ==> line_chars(
                        old(self)@.schedule,
                        spec_map_to_content(
                            c.pos,
                            old(self).geom,
                            old(self)@.schedule,
                        ).unwrap().line as int,
                    ).len() + 1 <= u16::MAX - 23)
                })
            }),
        ensures
            final(self).inv(),
            final(self).cursor is Some,
            ({
                let transient = old(self).mode.spec_is_transient();
                let eff = if transient {
                    old(self).parent_mode
                } else {
                    old(self).mode
                };
                let reverted = StateView { mode: eff, ..old(self)@ };
                let cmd = spec_map_command(bindings@, *key, old(self).mode);
                &&& (cmd is None && eff != Mode::Insert ==> final(self)@ == reverted && r == (
                    transient,
                    None::<TerminalPos>,
                ))
                &&& (cmd is None && eff == Mode::Insert ==> ({
                    let c = old(self).cursor.unwrap();
                    let p = spec_map_to_content(
                        c.pos,
                        old(self).geom,
                        old(self)@.schedule,
                    ).unwrap();
                    let text = line_chars(old(self)@.schedule, p.line as int);
                    let changed = spec_edit_changed(text, p.col as int, *key);
                    let dx = spec_edit_dx(text, p.col as int, *key);
                    let edited = TimeBoxView {
                        activity: crate::dom::ActivityView {
                            summary: spec_edit_text(text, p.col as int, *key),
                            kind: old(self)@.schedule.timeboxes[p.line as int].activity.kind,
                        },
                        ..old(self)@.schedule.timeboxes[p.line as int]
                    };
                    &&& r.0 == (transient || changed)
                    &&& (!changed ==> final(self)@ == reverted && r.1 is None)
                    &&& (changed ==> final(self)@ == (StateView {
                        mode: eff,
                        schedule: old(self)@.schedule.with_box(p.line as int, edited),
                        cursor: final(self)@.cursor,
                        ..old(self)@
                    }))
                    &&& (changed && dx == 0 ==> r.1 is None && final(self)@.cursor == old(
                        self,
                    )@.cursor)
                    &&& (dx != 0 ==> r.1 == spec_move(
                        cur_pos,
                        c.ghost_col(),
                        dx,
                        0,
                        old(self).geom,
                        final(self)@.schedule,
                    ))
                    &&& (dx != 0 ==> (r.1 matches Some(np) ==> final(self)@.cursor == Some(
                        ContentCursor { hghost: np.hpos, pos: np },
                    )))
                    &&& (dx != 0 && r.1 is None ==> final(self)@.cursor == old(self)@.cursor)
                }))
                &&& (cmd matches Some(c) ==> (act_post(
                    reverted,
                    final(self)@,
                    c,
                    cur_pos,
                    true,
                    r.1,
                ) && r.0) || (act_post(reverted, final(self)@, c, cur_pos, false, r.1) && r.0
                    == transient))
            }),
    {
        // Determine the bound command for this key in the current mode
        let editor_command = Command::map(key, &self.mode, bindings);

        // Return to the parent mode on any key for transient modes
        let mut redraw = false;
        if self.mode.is_transient() {
            self.mode = self.parent_mode;
            redraw = true;
        }
        proof {
            assert(self@ =~= (StateView {
                mode: if old(self).mode.spec_is_transient() {
                    old(self).parent_mode
                } else {
                    old(self).mode
                },
                ..old(self)@
            }));
        }

        match editor_command {
            Some(cmd) => {
                proof {
                    crate::command::lemma_map_command_from_table(bindings@, *key, old(self).mode);
                }
                let (rd, moved) = self.act(cmd, cur_pos);
                let result = (redraw || rd, moved);
                proof {
                    let transient = old(self).mode.spec_is_transient();
                    let eff = if transient {
                        old(self).parent_mode
                    } else {
                        old(self).mode
                    };
                    let reverted = StateView { mode: eff, ..old(self)@ };
                    let cspec = spec_map_command(bindings@, *key, old(self).mode).unwrap();
                    assert(cspec == *cmd);
                    assert(act_post(reverted, self@, cspec, cur_pos, rd, result.1));
                }
                result
            }
            None => {
                // No command was found for this key: in insert mode, the key
                // edits the schedule text directly
                let is_insert = match self.mode {
                    Mode::Insert => true,
                    _ => false,
                };
                if is_insert {
                    let (rd, moved) = self.edit_in_insert_mode(key, cur_pos);
                    (redraw || rd, moved)
                } else {
                    (redraw, None)
                }
            }
        }
    }
}


impl State {
    /// In insert mode, an unbound key edits the schedule text under the
    /// cursor directly.
    fn edit_in_insert_mode(&mut self, key: &KeyEvent, cur_pos: TerminalPos) -> (r: (
        bool,
        Option<TerminalPos>,
    ))
        requires
            old(self).inv(),
            old(self).cursor is Some,
            old(self).geom.render_height <= old(self)@.schedule.timeboxes.len(),
            pos_ok(old(self).cursor.unwrap().pos, old(self).geom, old(self)@.schedule),
            key.code matches KeyCode::Char(_) ==> line_chars(
                old(self)@.schedule,
                spec_map_to_content(
                    old(self).cursor.unwrap().pos,
                    old(self).geom,
                    old(self)@.schedule,
                ).unwrap().line as int,
            ).len() + 1 <= u16::MAX - 23,
        ensures
            final(self).inv(),
            final(self).cursor is Some,
            ({
                let c = old(self).cursor.unwrap();
                let p = spec_map_to_content(c.pos, old(self).geom, old(self)@.schedule).unwrap();
                let text = line_chars(old(self)@.schedule, p.line as int);
                let changed = spec_edit_changed(text, p.col as int, *key);
                let dx = spec_edit_dx(text, p.col as int, *key);
                let edited = TimeBoxView {
                    activity: crate::dom::ActivityView {
                        summary: spec_edit_text(text, p.col as int, *key),
                        kind: old(self)@.schedule.timeboxes[p.line as int].activity.kind,
                    },
                    ..old(self)@.schedule.timeboxes[p.line as int]
                };
                &&& r.0 == changed
                &&& (!changed ==> final(self)@ == old(self)@ && r.1 is None)
                &&& (changed ==> final(self)@ == (StateView {
                    schedule: old(self)@.schedule.with_box(p.line as int, edited),
                    cursor: final(self)@.cursor,
                    ..old(self)@
                }))
                &&& (changed && dx == 0 ==> r.1 is None && final(self)@.cursor == old(
                    self,
                )@.cursor)
                &&& (dx != 0 ==> r.1 == spec_move(
                    cur_pos,
                    c.ghost_col(),
                    dx,
                    0,
                    old(self).geom,
                    final(self)@.schedule,
                ))
                &&& (dx != 0 ==> (r.1 matches Some(np) ==> final(self)@.cursor == Some(
                    ContentCursor { hghost: np.hpos, pos: np },
                )))
                &&& (dx != 0 && r.1 is None ==> final(self)@.cursor == old(self)@.cursor)
            }),
    {
        let mut cursor = self.cursor.unwrap();
        let (rd, moved) = self.schedule.edit_content(key, &mut cursor, cur_pos, self.geom);
        self.cursor = Some(cursor);
        proof {
            let c = old(self).cursor.unwrap();
            let p = spec_map_to_content(c.pos, old(self).geom, old(self)@.schedule).unwrap();
            let text = line_chars(old(self)@.schedule, p.line as int);
            if spec_edit_changed(text, p.col as int, *key) {
                assert(self@ =~= (StateView {
                    schedule: self@.schedule,
                    cursor: self@.cursor,
                    ..old(self)@
                }));
                assert forall|i: int| 0 <= i < self@.schedule.timeboxes.len() implies (
                #[trigger] self@.schedule.timeboxes[i]).time_wf() by {
                    assert(old(self)@.schedule.timeboxes[i].time_wf());
                }
            } else {
                assert(self@ =~= old(self)@);
            }
        }
        (rd, moved)
    }
}

} // verus!
