//! The coordinate mapper and the cursor controller.
//!
//! A *terminal position* is an absolute column/row pair on the screen; a
//! *content position* is a character offset into one schedule line's
//! activity text plus that line's index.  The two mapping directions are
//! specified exactly, and the round-trip and boundary laws are proved below.

use crate::render::spec_time_col_width;
use crate::schedule::Schedule;
use crate::schedule::ScheduleView;
use vstd::prelude::*;
use vstd::string::StrSliceExecFns;

verus! {

/// Cursor position in absolute terminal coordinates.
#[derive(Clone, Copy, Debug, PartialEq, Eq, Structural)]
pub struct TerminalPos {
    pub hpos: u16,
    pub vpos: u16,
}

/// Cursor position mapped to editor content: a character offset `col` into
/// the line's activity text and the line index within the schedule.
#[derive(Clone, Copy, Debug, PartialEq, Eq, Structural)]
pub struct MappedPos {
    pub col: usize,
    pub line: usize,
}

/// Where and how large the schedule stands on screen: the row its first
/// line is rendered at and the number of rendered lines.  The render step
/// writes it; cursor operations between renders read it.
#[derive(Clone, Copy, Debug, PartialEq, Eq, Structural)]
pub struct RenderGeometry {
    pub render_y: u16,
    pub render_height: u16,
}

/// The activity text on the given line.
pub open spec fn line_chars(s: ScheduleView, line: int) -> Seq<char> {
    s.timeboxes[line].activity.summary
}

impl RenderGeometry {
    /// The geometry is consistent with the schedule and everything the
    /// mapping computes fits in terminal coordinates: the rendered height
    /// covers no more lines than exist, rows stay within `u16`, and every
    /// line's time column plus text fits a terminal row.
    pub open spec fn wf_for(self, s: ScheduleView) -> bool {
        &&& self.render_height <= s.timeboxes.len()
        &&& self.render_y + self.render_height <= u16::MAX
        &&& s.fits_terminal()
    }
}

/// Maps a terminal row to a schedule line: row `render_y` is line 0.  Fails
/// when the row lies above the render region or at/past its bottom.
pub open spec fn spec_map_to_line(cursor_y: int, render_y: int, render_height: int) -> Option<
    int,
> {
    if cursor_y < render_y {
        None
    } else if cursor_y - render_y >= render_height {
        None
    } else {
        Some(cursor_y - render_y)
    }
}

/// Maps a content position to the terminal.  Fails when the line is at or
/// past the rendered height, or the column is more than one past the end of
/// the line's text.
pub open spec fn spec_map_to_terminal(
    pos: MappedPos,
    geom: RenderGeometry,
    s: ScheduleView,
) -> Option<TerminalPos> {
    if pos.line >= geom.render_height {
        None
    } else if pos.col >= line_chars(s, pos.line as int).len() + 1 {
        None
    } else {
        Some(
            TerminalPos {
                hpos: (pos.col + spec_time_col_width(s.timeboxes) + 1) as u16,
                vpos: (pos.line + geom.render_y) as u16,
            },
        )
    }
}

/// Maps a terminal position to content.  Fails when the row maps to no
/// line, the column lies left of the text area, or the column is two or
/// more past the end of the line's text.
pub open spec fn spec_map_to_content(
    pos: TerminalPos,
    geom: RenderGeometry,
    s: ScheduleView,
) -> Option<MappedPos> {
    match spec_map_to_line(pos.vpos as int, geom.render_y as int, geom.render_height as int) {
        None => None,
        Some(line) => {
            let width = spec_time_col_width(s.timeboxes);
            if pos.hpos < width + 1 {
                None
            } else if pos.hpos - (width + 1) >= line_chars(s, line).len() + 2 {
                None
            } else {
                Some(MappedPos { col: (pos.hpos - width - 1) as usize, line: line as usize })
            }
        }
    }
}

impl TerminalPos {
    /// Builds a terminal position from a column and a row.
    pub fn new(hpos: u16, vpos: u16) -> (r: TerminalPos)
        ensures
            r == (TerminalPos { hpos, vpos }),
    {
        TerminalPos { hpos, vpos }
    }

    /// Maps a terminal row to a schedule line; line 0 is the topmost
    /// rendered line.  `None` on out-of-bounds.
    pub fn map_to_line(cursor_y: u16, render_y: u16, render_height: u16) -> (r: Option<usize>)
        ensures
            r matches Some(line) ==> Some(line as int) == spec_map_to_line(
                cursor_y as int,
                render_y as int,
                render_height as int,
            ),
            r is None ==> spec_map_to_line(
                cursor_y as int,
                render_y as int,
                render_height as int,
            ) is None,
    {
        if cursor_y < render_y {
            // Out-of-bounds, content is below
            return None;
        }
        let idx = cursor_y - render_y;
        if idx >= render_height {
            // Out-of-bounds, content is above
            return None;
        }
        Some(idx as usize)
    }

    /// Maps this terminal position to content, (0, 0) being the first
    /// character of the topmost line.  `None` on out-of-bounds.
    pub fn map_to_content(&self, geom: RenderGeometry, schedule: &Schedule) -> (r: Option<
        MappedPos,
    >)
        requires
            geom.wf_for(schedule@),
        ensures
            r == spec_map_to_content(*self, geom, schedule@),
    {
        let line_idx = match Self::map_to_line(self.vpos, geom.render_y, geom.render_height) {
            Some(idx) => idx,
            None => {
                return None;
            }
        };

        // Content == the summary of the activity
        let content_on_line = self.timebox_text(line_idx, schedule);
        let count = content_on_line.as_str().unicode_len();

        let width = schedule.time_col_width();
        if (self.hpos as usize) < width + 1 {
            // Out-of-bounds, content is rightwards
            return None;
        }
        let char_idx = self.hpos as usize - (width + 1);
        if char_idx >= count + 2 {
            // Out-of-bounds, content is leftwards
            return None;
        }

        Some(MappedPos { col: char_idx, line: line_idx })
    }

    /// The activity text of the given line (helper for mapping).
    fn timebox_text<'a>(&self, line: usize, schedule: &'a Schedule) -> (r: &'a String)
        requires
            line < schedule@.timeboxes.len(),
        ensures
            r@ == line_chars(schedule@, line as int),
    {
        &schedule.timeboxes[line].activity.summary
    }
}

impl MappedPos {
    /// Builds a content position from a character offset and a line index.
    pub fn new(col: usize, line: usize) -> (r: MappedPos)
        ensures
            r == (MappedPos { col, line }),
    {
        MappedPos { col, line }
    }

    /// The first character of the first line.
    pub fn first() -> (r: MappedPos)
        ensures
            r == (MappedPos { col: 0, line: 0 }),
    {
        MappedPos { col: 0, line: 0 }
    }

    /// This position moved to the given column.
    pub fn column(self, column: usize) -> (r: MappedPos)
        ensures
            r == (MappedPos { col: column, line: self.line }),
    {
        MappedPos { col: column, line: self.line }
    }

    /// This position moved one column right.
    pub fn next_column(self) -> (r: MappedPos)
        requires
            self.col < usize::MAX,
        ensures
            r == (MappedPos { col: (self.col + 1) as usize, line: self.line }),
    {
        MappedPos { col: self.col + 1, line: self.line }
    }

    /// This position moved to the given line.
    pub fn line(self, line: usize) -> (r: MappedPos)
        ensures
            r == (MappedPos { col: self.col, line }),
    {
        MappedPos { col: self.col, line }
    }

    /// This position moved one line down.
    pub fn next_line(self) -> (r: MappedPos)
        requires
            self.line < usize::MAX,
        ensures
            r == (MappedPos { col: self.col, line: (self.line + 1) as usize }),
    {
        MappedPos { col: self.col, line: self.line + 1 }
    }

    /// Maps this content position to the terminal; (0, 0) lands right of
    /// the time column on the topmost rendered line.  `None` on
    /// out-of-bounds.
    pub fn map_to_terminal(&self, geom: RenderGeometry, schedule: &Schedule) -> (r: Option<
        TerminalPos,
    >)
        requires
            geom.wf_for(schedule@),
        ensures
            r == spec_map_to_terminal(*self, geom, schedule@),
    {
        if self.line >= geom.render_height as usize {
            return None;
        }
        let out_y = self.line + geom.render_y as usize;

        let content_on_line = &schedule.timeboxes[self.line].activity.summary;
        let count = content_on_line.as_str().unicode_len();
        if self.col >= count + 1 {
            return None;
        }

        let width = schedule.time_col_width();
        let out_x = self.col + width + 1;

        Some(TerminalPos { hpos: out_x as u16, vpos: out_y as u16 })
    }
}

/// Round-trip law: a content position within the schedule's current bounds
/// maps to the terminal and back to exactly itself.
pub proof fn lemma_map_round_trip(pos: MappedPos, geom: RenderGeometry, s: ScheduleView)
    requires
        geom.wf_for(s),
        pos.line < geom.render_height,
        pos.col <= line_chars(s, pos.line as int).len(),
    ensures
        spec_map_to_terminal(pos, geom, s) matches Some(tp) && spec_map_to_content(tp, geom, s)
            == Some(pos),
{
    crate::render::lemma_time_col_width_bound(s.timeboxes);
}

/// Boundary law: mapping to the terminal fails exactly at or past the
/// rendered height, and mapping to content fails for rows above the render
/// region or at/past its bottom.
pub proof fn lemma_map_boundaries(pos: MappedPos, tp: TerminalPos, geom: RenderGeometry, s: ScheduleView)
    ensures
        pos.line >= geom.render_height ==> spec_map_to_terminal(pos, geom, s) is None,
        tp.vpos < geom.render_y ==> spec_map_to_content(tp, geom, s) is None,
        tp.vpos - geom.render_y >= geom.render_height ==> spec_map_to_content(tp, geom, s)
            is None,
{
}

/// A terminal position that resolves to a valid content position: it maps
/// to content, and the character offset lies within the line's text
/// (at most one past its end).
pub open spec fn pos_ok(pos: TerminalPos, geom: RenderGeometry, s: ScheduleView) -> bool {
    spec_map_to_content(pos, geom, s) matches Some(p) && p.col <= line_chars(
        s,
        p.line as int,
    ).len()
}

/// The cursor controller: the cursor's current terminal position plus the
/// remembered horizontal ("ghost") column used to keep alignment across
/// vertical moves over lines of differing length.
#[derive(Clone, Copy, Debug, PartialEq, Eq, Structural)]
pub struct ContentCursor {
    /// Ghost position of the cursor
    pub hghost: u16,
    /// The position of the cursor on terminal
    pub pos: TerminalPos,
}

/// Shifts a content position by a delta in content space; fails where the
/// result would be negative.
pub open spec fn spec_shift(p: MappedPos, dx: int, dy: int) -> Option<MappedPos> {
    if p.col + dx < 0 || p.line + dy < 0 {
        None
    } else {
        Some(MappedPos { col: (p.col + dx) as usize, line: (p.line + dy) as usize })
    }
}

/// The whole move relation: re-map the live terminal position to content
/// (retrying with the ghost column for vertical moves), shift by the delta,
/// and map forward again.  `None` anywhere means the move is a no-op.
pub open spec fn spec_move(
    cur_pos: TerminalPos,
    ghost_col: u16,
    dx: int,
    dy: int,
    geom: RenderGeometry,
    s: ScheduleView,
) -> Option<TerminalPos> {
    let mapped = match spec_map_to_content(cur_pos, geom, s) {
        Some(p) => Some(p),
        None => if dx == 0 {
            spec_map_to_content(TerminalPos { hpos: ghost_col, vpos: cur_pos.vpos }, geom, s)
        } else {
            None
        },
    };
    match mapped {
        None => None,
        Some(p) => match spec_shift(p, dx, dy) {
            None => None,
            Some(np) => spec_map_to_terminal(np, geom, s),
        },
    }
}

impl ContentCursor {
    /// The remembered horizontal column.
    pub open spec fn ghost_col(self) -> u16 {
        self.hghost
    }

    /// Creates a cursor at the given terminal position; the ghost column
    /// starts there too.
    pub fn create_at(pos: TerminalPos) -> (c: ContentCursor)
        ensures
            c.pos == pos,
            c.ghost_col() == pos.hpos,
    {
        ContentCursor { hghost: pos.hpos, pos }
    }

    /// Creates a cursor on the first character of the first schedule line.
    pub fn create_at_top_left(geom: RenderGeometry, schedule: &Schedule) -> (c: ContentCursor)
        requires
            geom.wf_for(schedule@),
            geom.render_height >= 1,
            schedule@.timeboxes.len() >= 1,
        ensures
            Some(c.pos) == spec_map_to_terminal(MappedPos { col: 0, line: 0 }, geom, schedule@),
            c.ghost_col() == c.pos.hpos,
            pos_ok(c.pos, geom, schedule@),
    {
        proof {
            lemma_map_round_trip(MappedPos { col: 0, line: 0 }, geom, schedule@);
        }
        let pos = MappedPos::first().map_to_terminal(geom, schedule).unwrap();
        Self::create_at(pos)
    }

    /// Maps the stored cursor position to content.  Callable only for a
    /// valid cursor: an invalid one is a fatal logic error, not a
    /// recoverable condition.
    pub fn map_to_content(&self, geom: RenderGeometry, schedule: &Schedule) -> (r: MappedPos)
        requires
            geom.wf_for(schedule@),
            spec_map_to_content(self.pos, geom, schedule@) is Some,
        ensures
            Some(r) == spec_map_to_content(self.pos, geom, schedule@),
    {
        self.pos.map_to_content(geom, schedule).unwrap()
    }

    /// Maps the stored cursor position to its schedule line.  Callable only
    /// for a valid cursor.
    pub fn map_to_line(&self, geom: RenderGeometry) -> (r: usize)
        requires
            spec_map_to_line(
                self.pos.vpos as int,
                geom.render_y as int,
                geom.render_height as int,
            ) is Some,
        ensures
            Some(r as int) == spec_map_to_line(
                self.pos.vpos as int,
                geom.render_y as int,
                geom.render_height as int,
            ),
    {
        TerminalPos::map_to_line(self.pos.vpos, geom.render_y, geom.render_height).unwrap()
    }

    /// The terminal position the physical cursor must be put back to after
    /// a full redraw.
    pub fn redraw(&self) -> (r: TerminalPos)
        ensures
            r == self.pos,
    {
        self.pos
    }

    /// Moves one line down.  Returns the terminal position to move the
    /// physical cursor to, or `None` when no move happened.
    pub fn move_down(&mut self, cur_pos: TerminalPos, schedule: &Schedule, geom: RenderGeometry)
        -> (r: Option<TerminalPos>)
        requires
            geom.wf_for(schedule@),
        ensures
            r == spec_move(cur_pos, old(self).ghost_col(), 0, 1, geom, schedule@),
            r matches Some(np) ==> pos_ok(np, geom, schedule@),
            r matches Some(np) ==> final(self).pos == np && final(self).ghost_col() == old(
                self,
            ).ghost_col(),
            r is None ==> *final(self) == *old(self),
    {
        self.move_cursor_mapped(cur_pos, 0, 1, schedule, geom)
    }

    /// Moves one line up; see [`Self::move_down`].
    pub fn move_up(&mut self, cur_pos: TerminalPos, schedule: &Schedule, geom: RenderGeometry)
        -> (r: Option<TerminalPos>)
        requires
            geom.wf_for(schedule@),
        ensures
            r == spec_move(cur_pos, old(self).ghost_col(), 0, -1, geom, schedule@),
            r matches Some(np) ==> pos_ok(np, geom, schedule@),
            r matches Some(np) ==> final(self).pos == np && final(self).ghost_col() == old(
                self,
            ).ghost_col(),
            r is None ==> *final(self) == *old(self),
    {
        self.move_cursor_mapped(cur_pos, 0, -1, schedule, geom)
    }

    /// Moves one column left; the ghost column follows.  See
    /// [`Self::move_down`].
    pub fn move_left(&mut self, cur_pos: TerminalPos, schedule: &Schedule, geom: RenderGeometry)
        -> (r: Option<TerminalPos>)
        requires
            geom.wf_for(schedule@),
        ensures
            r == spec_move(cur_pos, old(self).ghost_col(), -1, 0, geom, schedule@),
            r matches Some(np) ==> pos_ok(np, geom, schedule@),
            r matches Some(np) ==> final(self).pos == np && final(self).ghost_col() == np.hpos,
            r is None ==> *final(self) == *old(self),
    {
        self.move_cursor_mapped(cur_pos, -1, 0, schedule, geom)
    }

    /// Moves one column right; the ghost column follows.  See
    /// [`Self::move_down`].
    pub fn move_right(&mut self, cur_pos: TerminalPos, schedule: &Schedule, geom: RenderGeometry)
        -> (r: Option<TerminalPos>)
        requires
            geom.wf_for(schedule@),
        ensures
            r == spec_move(cur_pos, old(self).ghost_col(), 1, 0, geom, schedule@),
            r matches Some(np) ==> pos_ok(np, geom, schedule@),
            r matches Some(np) ==> final(self).pos == np && final(self).ghost_col() == np.hpos,
            r is None ==> *final(self) == *old(self),
    {
        self.move_cursor_mapped(cur_pos, 1, 0, schedule, geom)
    }

    /// The shared move logic: maps the live terminal position to content
    /// (falling back to the ghost column on vertical moves), applies the
    /// delta, maps forward, and commits the new position on success.
    fn move_cursor_mapped(
        &mut self,
        cur_pos: TerminalPos,
        dx: i16,
        dy: i16,
        schedule: &Schedule,
        geom: RenderGeometry,
    ) -> (r: Option<TerminalPos>)
        requires
            geom.wf_for(schedule@),
            -1 <= dx <= 1,
            -1 <= dy <= 1,
        ensures
            r == spec_move(cur_pos, old(self).ghost_col(), dx as int, dy as int, geom, schedule@),
            r matches Some(np) ==> pos_ok(np, geom, schedule@),
            r matches Some(np) ==> final(self).pos == np && final(self).ghost_col() == (
                if dx != 0 {
                    np.hpos
                } else {
                    old(self).ghost_col()
                }
            ),
            r is None ==> *final(self) == *old(self),
    {
        // Figure out where the live cursor lands on the schedule
        let mapped_pos = match cur_pos.map_to_content(geom, schedule) {
            Some(pos) => pos,
            // OOB
            None => {
                // Check if we have a valid ghost column on a vertical move
                if dx == 0 {
                    let ghost_pos = TerminalPos { hpos: self.hghost, vpos: cur_pos.vpos };
                    match ghost_pos.map_to_content(geom, schedule) {
                        Some(pos) => pos,
                        None => {
                            return None;
                        }
                    }
                } else {
                    return None;
                }
            }
        };

        // Move the position by the delta, in content space
        let n_mapped_x: i64 = mapped_pos.col as i64 + dx as i64;
        let n_mapped_y: i64 = mapped_pos.line as i64 + dy as i64;
        if n_mapped_x < 0 || n_mapped_y < 0 {
            return None;
        }
        let target = MappedPos { col: n_mapped_x as usize, line: n_mapped_y as usize };

        // Map forward to terminal space and commit on success
        let n_cur_pos = match target.map_to_terminal(geom, schedule) {
            Some(pos) => pos,
            None => {
                return None;
            }
        };
        proof {
            lemma_map_round_trip(target, geom, schedule@);
        }
        self.pos = n_cur_pos;
        if dx != 0 {
            self.hghost = n_cur_pos.hpos;
        }
        Some(n_cur_pos)
    }

    /// Jumps within the current line to content column `idx`.  Callable
    /// only for a cursor on a valid line.
    pub fn move_to_column(
        &mut self,
        idx: usize,
        schedule: &Schedule,
        geom: RenderGeometry,
    ) -> (r: Option<TerminalPos>)
        requires
            geom.wf_for(schedule@),
            spec_map_to_line(
                old(self).pos.vpos as int,
                geom.render_y as int,
                geom.render_height as int,
            ) is Some,
        ensures
            ({
                let line = spec_map_to_line(
                    old(self).pos.vpos as int,
                    geom.render_y as int,
                    geom.render_height as int,
                ).unwrap();
                let target = MappedPos { col: idx, line: line as usize };
                &&& r == spec_map_to_terminal(target, geom, schedule@)
                &&& (r matches Some(np) ==> pos_ok(np, geom, schedule@))
                &&& (r matches Some(np) ==> final(self).pos == np && final(self).ghost_col()
                    == old(self).ghost_col())
                &&& (r is None ==> *final(self) == *old(self))
            }),
    {
        let cursor_line = self.map_to_line(geom);
        let target = MappedPos { col: idx, line: cursor_line };
        self.move_to_content(&target, schedule, geom)
    }

    /// Jumps directly to a content position.  Returns the terminal position
    /// to move the physical cursor to, or `None` when the position does not
    /// exist on screen (then nothing changes).
    pub fn move_to_content(
        &mut self,
        mapped_pos: &MappedPos,
        schedule: &Schedule,
        geom: RenderGeometry,
    ) -> (r: Option<TerminalPos>)
        requires
            geom.wf_for(schedule@),
        ensures
            r == spec_map_to_terminal(*mapped_pos, geom, schedule@),
            r matches Some(np) ==> pos_ok(np, geom, schedule@),
            r matches Some(np) ==> final(self).pos == np && final(self).ghost_col() == old(
                self,
            ).ghost_col(),
            r is None ==> *final(self) == *old(self),
    {
        // Restore screen position by mapping the content to screen
        let n_cur_pos = match mapped_pos.map_to_terminal(geom, schedule) {
            Some(pos) => pos,
            None => {
                return None;
            }
        };
        proof {
            lemma_map_round_trip(*mapped_pos, geom, schedule@);
        }
        self.pos = n_cur_pos;
        Some(n_cur_pos)
    }

    /// Where the cursor lands after clamping into the schedule's on-screen
    /// extent: the row is clamped into the rendered lines that exist, the
    /// column into the current line's text area.
    pub open spec fn spec_clamp(
        pos: TerminalPos,
        geom: RenderGeometry,
        s: ScheduleView,
    ) -> TerminalPos {
        let len = s.timeboxes.len() as int;
        let y_min = geom.render_y as int;
        let span = if geom.render_height <= len - 1 { geom.render_height as int } else { len - 1 };
        let y_max = y_min + span;
        let vpos = if pos.vpos < y_min {
            y_min
        } else if pos.vpos > y_max {
            y_max
        } else {
            pos.vpos as int
        };
        let line = vpos - y_min;
        let x_min = spec_time_col_width(s.timeboxes) + 1;
        let x_max = x_min + line_chars(s, line).len();
        let hpos = if pos.hpos < x_min {
            x_min
        } else if pos.hpos > x_max {
            x_max
        } else {
            pos.hpos as int
        };
        TerminalPos { hpos: hpos as u16, vpos: vpos as u16 }
    }

    /// After destructive edits, forcibly clamps the stored position into
    /// the schedule's on-screen extent so that subsequent mapping cannot
    /// fail.
    pub fn clamp_to_content(&mut self, schedule: &Schedule, geom: RenderGeometry)
        requires
            schedule@.fits_terminal(),
            geom.render_y + geom.render_height <= u16::MAX,
            1 <= schedule@.timeboxes.len() <= geom.render_height,
        ensures
            final(self).pos == Self::spec_clamp(old(self).pos, geom, schedule@),
            final(self).ghost_col() == old(self).ghost_col(),
            pos_ok(final(self).pos, geom, schedule@),
    {
        let y_min = geom.render_y;
        if self.pos.vpos < y_min {
            self.pos.vpos = y_min;
        }

        let len_minus_one = self.len_u16(schedule) - 1;
        let span = if geom.render_height <= len_minus_one {
            geom.render_height
        } else {
            len_minus_one
        };
        let y_max = y_min + span;
        if self.pos.vpos > y_max {
            self.pos.vpos = y_max;
        }

        let width = schedule.time_col_width();
        let x_min = (width + 1) as u16;
        if self.pos.hpos < x_min {
            self.pos.hpos = x_min;
        }

        let content_line = (self.pos.vpos - y_min) as usize;
        let content = &schedule.timeboxes[content_line].activity.summary;
        let count = content.as_str().unicode_len();
        let x_max = x_min + count as u16;
        if self.pos.hpos > x_max {
            self.pos.hpos = x_max;
        }
    }

    /// A helper returning the schedule length as a `u16`.
    fn len_u16(&self, schedule: &Schedule) -> (r: u16)
        requires
            schedule@.timeboxes.len() <= u16::MAX,
        ensures
            r == schedule@.timeboxes.len(),
    {
        schedule.timeboxes.len() as u16
    }
}

} // verus!
