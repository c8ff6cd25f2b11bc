//! Plain-text rendering of schedule lines.
//!
//! The editor's coordinate mapping depends on the exact width of the time
//! column, so the text of a time slot is specified here character by
//! character and the width functions are proved against it.  The terminal
//! styling around these strings is not part of the library.

use crate::dom::TimeBox;
use crate::dom::TimeBoxView;
use crate::dom::TimeSlotKind;
use crate::schedule::Schedule;
use crate::text::push_char;
use crate::text::spaces;
use crate::time::Duration;
use crate::time::Time;
use crate::time::time_of_day;
use vstd::prelude::*;
use vstd::string::StrSliceExecFns;
use vstd::string::StringExecFns;

verus! {

/// The decimal digit character for `d` (for `d` in 0..10).
pub open spec fn digit_char(d: int) -> char {
    if d == 0 {
        '0'
    } else if d == 1 {
        '1'
    } else if d == 2 {
        '2'
    } else if d == 3 {
        '3'
    } else if d == 4 {
        '4'
    } else if d == 5 {
        '5'
    } else if d == 6 {
        '6'
    } else if d == 7 {
        '7'
    } else if d == 8 {
        '8'
    } else {
        '9'
    }
}

fn digit(d: u8) -> (c: char)
    requires
        d < 10,
    ensures
        c == digit_char(d as int),
{
    match d {
        0 => '0',
        1 => '1',
        2 => '2',
        3 => '3',
        4 => '4',
        5 => '5',
        6 => '6',
        7 => '7',
        8 => '8',
        _ => '9',
    }
}

/// `n` as two decimal digits, zero-padded (for `n` in 0..100).
pub open spec fn two_digits(n: int) -> Seq<char> {
    seq![digit_char(n / 10), digit_char(n % 10)]
}

/// `n` as decimal digits without a leading zero (for `n` in 0..100).
pub open spec fn spec_dec(n: int) -> Seq<char> {
    if n < 10 {
        seq![digit_char(n)]
    } else {
        two_digits(n)
    }
}

fn push_two_digits(s: &mut String, n: u8)
    requires
        n < 100,
    ensures
        final(s)@ == old(s)@ + two_digits(n as int),
{
    push_char(s, digit(n / 10));
    push_char(s, digit(n % 10));
    proof {
        assert(s@ =~= old(s)@ + two_digits(n as int));
    }
}

fn push_dec(s: &mut String, n: u8)
    requires
        n < 100,
    ensures
        final(s)@ == old(s)@ + spec_dec(n as int),
{
    if n >= 10 {
        push_char(s, digit(n / 10));
    }
    push_char(s, digit(n % 10));
    proof {
        assert(s@ =~= old(s)@ + spec_dec(n as int));
    }
}

/// A time rendered as `HH:MM`.
pub open spec fn spec_time_text(t: Time) -> Seq<char> {
    two_digits(t.hour as int) + seq![':'] + two_digits(t.min as int)
}

/// Renders a time as `HH:MM`.
pub fn time_text(t: &Time) -> (r: String)
    requires
        t.hour < 100,
        t.min < 100,
    ensures
        r@ == spec_time_text(*t),
{
    let mut r = String::new();
    push_two_digits(&mut r, t.hour);
    push_char(&mut r, ':');
    push_two_digits(&mut r, t.min);
    proof {
        assert(r@ =~= spec_time_text(*t));
    }
    r
}

/// A non-negative duration of `m` minutes rendered as `XhYm`, `Xh` or `Ym`,
/// whichever parts are non-zero (for `m` in 0..1440; zero renders as `0m`).
pub open spec fn spec_duration_text(m: int) -> Seq<char> {
    let h = m / 60;
    let mn = m % 60;
    if mn != 0 && h != 0 {
        spec_dec(h) + seq!['h'] + spec_dec(mn) + seq!['m']
    } else if h != 0 {
        spec_dec(h) + seq!['h']
    } else {
        spec_dec(mn) + seq!['m']
    }
}

/// A rendered duration below 24 hours takes between 2 and 6 characters.
pub proof fn lemma_duration_text_len(m: int)
    requires
        0 <= m < 1440,
    ensures
        2 <= spec_duration_text(m).len() <= 6,
{
    assert(0 <= m / 60 < 24 && 0 <= m % 60 < 60) by (nonlinear_arith)
        requires 0 <= m < 1440;
}

/// Renders a duration of less than a day, e.g. `1h30m`, `2h` or `45m`.
pub fn duration_text(d: &Duration) -> (r: String)
    requires
        0 <= d.minutes < 1440,
    ensures
        r@ == spec_duration_text(d.minutes as int),
{
    let h: u8 = (d.minutes / 60) as u8;
    let mn: u8 = (d.minutes % 60) as u8;
    proof {
        assert(0 <= d.minutes / 60 < 24 && 0 <= d.minutes % 60 < 60) by (nonlinear_arith)
            requires 0 <= d.minutes < 1440;
    }
    let mut r = String::new();
    if mn != 0 && h != 0 {
        push_dec(&mut r, h);
        push_char(&mut r, 'h');
        push_dec(&mut r, mn);
        push_char(&mut r, 'm');
    } else if h != 0 {
        push_dec(&mut r, h);
        push_char(&mut r, 'h');
    } else {
        push_dec(&mut r, mn);
        push_char(&mut r, 'm');
    }
    proof {
        assert(r@ =~= spec_duration_text(d.minutes as int));
    }
    r
}

/// A slot rendered as plain text: `HH:MM` for a time, and
/// `HH:MM--HH:MM (1h30m)` for a span (the parenthesis holds the span's
/// wraparound-aware length).
pub open spec fn spec_slot_text(slot: TimeSlotKind) -> Seq<char> {
    match slot {
        TimeSlotKind::Time(t) => spec_time_text(t),
        TimeSlotKind::Span(start, end) => spec_time_text(start) + seq!['-', '-'] + spec_time_text(
            end,
        ) + seq![' ', '('] + spec_duration_text(
            (end.spec_minutes() - start.spec_minutes()) % 1440,
        ) + seq![')'],
    }
}

/// A well-formed slot renders to between 5 and 21 characters.
pub proof fn lemma_slot_text_len(slot: TimeSlotKind)
    requires
        slot.wf(),
    ensures
        5 <= spec_slot_text(slot).len() <= 21,
{
    match slot {
        TimeSlotKind::Time(t) => {}
        TimeSlotKind::Span(start, end) => {
            lemma_duration_text_len((end.spec_minutes() - start.spec_minutes()) % 1440);
        }
    }
}

/// Renders a slot as plain text.
pub fn slot_text(slot: &TimeSlotKind) -> (r: String)
    requires
        slot.wf(),
    ensures
        r@ == spec_slot_text(*slot),
{
    match slot {
        TimeSlotKind::Time(t) => time_text(t),
        TimeSlotKind::Span(start, end) => {
            let mut r = time_text(start);
            push_char(&mut r, '-');
            push_char(&mut r, '-');
            let end_text = time_text(end);
            r.append(end_text.as_str());
            push_char(&mut r, ' ');
            push_char(&mut r, '(');
            let len = end.since(start);
            let len_text = duration_text(&len);
            r.append(len_text.as_str());
            push_char(&mut r, ')');
            proof {
                assert(r@ =~= spec_slot_text(*slot));
            }
            r
        }
    }
}

/// The width of the time column: the widest rendered slot over all boxes,
/// or 0 where no box has a time.
pub open spec fn spec_time_col_width(boxes: Seq<TimeBoxView>) -> int
    decreases boxes.len(),
{
    if boxes.len() == 0 {
        0
    } else {
        let rest = spec_time_col_width(boxes.drop_last());
        let last = match boxes.last().time {
            Some(slot) => spec_slot_text(slot).len() as int,
            None => 0,
        };
        if last > rest {
            last
        } else {
            rest
        }
    }
}

/// The time column of a well-formed schedule is at most 21 characters wide.
pub proof fn lemma_time_col_width_bound(boxes: Seq<TimeBoxView>)
    requires
        forall|i: int| 0 <= i < boxes.len() ==> (#[trigger] boxes[i]).time_wf(),
    ensures
        0 <= spec_time_col_width(boxes) <= 21,
    decreases boxes.len(),
{
    if boxes.len() > 0 {
        lemma_time_col_width_bound(boxes.drop_last());
        match boxes.last().time {
            Some(slot) => {
                assert(boxes[boxes.len() - 1].time_wf());
                lemma_slot_text_len(slot);
            }
            None => {}
        }
    }
}

impl Schedule {
    /// The rendered width, in characters, of the widest time slot across all
    /// boxes (0 where none has a time).  The width is schedule-dependent and
    /// recomputed on demand, never cached.
    pub fn time_col_width(&self) -> (w: usize)
        requires
            forall|i: int| 0 <= i < self@.timeboxes.len()
                ==> (#[trigger] self@.timeboxes[i]).time_wf(),
        ensures
            w == spec_time_col_width(self@.timeboxes),
            w <= 21,
    {
        let ghost boxes = self@.timeboxes;
        let mut w: usize = 0;
        let mut idx: usize = 0;
        let n = self.timeboxes.len();
        proof {
            assert(boxes.subrange(0, 0) =~= Seq::<TimeBoxView>::empty());
        }
        while idx < n
            invariant
                idx <= n,
                n == boxes.len(),
                boxes == self@.timeboxes,
                forall|i: int| 0 <= i < boxes.len() ==> (#[trigger] boxes[i]).time_wf(),
                w == spec_time_col_width(boxes.subrange(0, idx as int)),
                w <= 21,
            decreases n - idx,
        {
            match &self.timeboxes[idx].time {
                Some(slot) => {
                    proof {
                        assert(boxes[idx as int].time_wf());
                        lemma_slot_text_len(*slot);
                    }
                    let text = slot_text(slot);
                    let len = text.as_str().unicode_len();
                    if len > w {
                        w = len;
                    }
                }
                None => {}
            }
            idx = idx + 1;
            proof {
                assert(boxes.subrange(0, idx as int).drop_last() =~= boxes.subrange(
                    0,
                    idx as int - 1,
                ));
            }
        }
        proof {
            assert(boxes.subrange(0, n as int) =~= boxes);
        }
        w
    }
}

/// One rendered schedule line: the slot text (five spaces where the box has
/// no time) left-aligned in a `width`-character column, one space of
/// padding, then the activity summary.
pub open spec fn spec_render_line(b: TimeBoxView, width: int) -> Seq<char> {
    let slot_part = match b.time {
        Some(slot) => spec_slot_text(slot),
        None => spaces(5),
    };
    let padded = if slot_part.len() >= width {
        slot_part
    } else {
        slot_part + spaces((width - slot_part.len()) as nat)
    };
    padded + seq![' '] + b.activity.summary
}

/// Renders one schedule line as plain text, given the time column width.
pub fn render_line(b: &TimeBox, width: usize) -> (r: String)
    requires
        b@.time_wf(),
    ensures
        r@ == spec_render_line(b@, width as int),
{
    let mut r = match &b.time {
        Some(slot) => slot_text(slot),
        None => {
            let mut s = String::new();
            crate::text::pad_to_width(&mut s, 5);
            proof {
                assert(s@ =~= spaces(5));
            }
            s
        }
    };
    crate::text::pad_to_width(&mut r, width);
    push_char(&mut r, ' ');
    r.append(b.activity.summary.as_str());
    proof {
        assert(r@ =~= spec_render_line(b@, width as int));
    }
    r
}

/// The last slot of any timed box in the list, scanning from the end.
pub open spec fn spec_last_slot(boxes: Seq<TimeBoxView>) -> Option<TimeSlotKind>
    decreases boxes.len(),
{
    if boxes.len() == 0 {
        None
    } else {
        match boxes.last().time {
            Some(slot) => Some(slot),
            None => spec_last_slot(boxes.drop_last()),
        }
    }
}

impl Schedule {
    /// The slot of the last timed box, if any box has a time.
    pub fn last_timed_slot(&self) -> (r: Option<TimeSlotKind>)
        ensures
            r == spec_last_slot(self@.timeboxes),
    {
        let ghost boxes = self@.timeboxes;
        let mut idx: usize = self.timeboxes.len();
        proof {
            assert(boxes.subrange(0, idx as int) =~= boxes);
        }
        while idx > 0
            invariant
                idx <= boxes.len(),
                boxes == self@.timeboxes,
                spec_last_slot(boxes) == spec_last_slot(boxes.subrange(0, idx as int)),
            decreases idx,
        {
            proof {
                assert(boxes.subrange(0, idx as int).drop_last() =~= boxes.subrange(
                    0,
                    idx as int - 1,
                ));
                assert(boxes.subrange(0, idx as int).last() == boxes[idx - 1]);
            }
            match &self.timeboxes[idx - 1].time {
                Some(slot) => {
                    return Some(*slot);
                }
                None => {}
            }
            idx = idx - 1;
        }
        proof {
            assert(boxes.subrange(0, 0) =~= Seq::<TimeBoxView>::empty());
        }
        None
    }
}


/// The bands of the day a schedule line can fall into, each rendered in its
/// own colour.
#[derive(Clone, Copy, Debug, PartialEq, Eq, Structural)]
pub enum CircadianSector {
    PreDawn,
    Day,
    Dusk,
    Night,
}

impl CircadianSector {
    /// The band that follows this one.
    pub open spec fn spec_next(self) -> CircadianSector {
        match self {
            CircadianSector::PreDawn => CircadianSector::Day,
            CircadianSector::Day => CircadianSector::Dusk,
            CircadianSector::Dusk => CircadianSector::Night,
            CircadianSector::Night => CircadianSector::PreDawn,
        }
    }

    /// The band that follows this one.
    pub fn next(&self) -> (r: CircadianSector)
        ensures
            r == self.spec_next(),
    {
        match self {
            CircadianSector::PreDawn => CircadianSector::Day,
            CircadianSector::Day => CircadianSector::Dusk,
            CircadianSector::Dusk => CircadianSector::Night,
            CircadianSector::Night => CircadianSector::PreDawn,
        }
    }

    /// Whether the colour band advances at a line whose slot starts at `t`:
    /// before dawn it advances at sunrise, during the day at sunset, and
    /// never after that.
    pub fn advances(&self, t: &Time, sunrise: &Time, sunset: &Time) -> (r: bool)
        ensures
            r == match *self {
                CircadianSector::PreDawn => t.spec_minutes() >= sunrise.spec_minutes(),
                CircadianSector::Day => t.spec_minutes() >= sunset.spec_minutes(),
                CircadianSector::Dusk => false,
                CircadianSector::Night => false,
            },
    {
        match self {
            CircadianSector::PreDawn => {
                let tm: u16 = t.hour as u16 * 60 + t.min as u16;
                let sm: u16 = sunrise.hour as u16 * 60 + sunrise.min as u16;
                tm >= sm
            }
            CircadianSector::Day => {
                let tm: u16 = t.hour as u16 * 60 + t.min as u16;
                let sm: u16 = sunset.hour as u16 * 60 + sunset.min as u16;
                tm >= sm
            }
            CircadianSector::Dusk => false,
            CircadianSector::Night => false,
        }
    }
}

impl Schedule {
    /// The time left unscheduled before tomorrow's wake-up: the span from
    /// the last timed slot's end to the wake-up anchor, together with the
    /// wake-up time that span lands on.  `None` where no box has a time.
    pub fn unscheduled_time(&self) -> (r: Option<(Duration, Time)>)
        requires
            self@.wf(),
        ensures
            spec_last_slot(self@.timeboxes) is None ==> r is None,
            spec_last_slot(self@.timeboxes) matches Some(slot) ==> (r matches Some((d, w))
                && d.minutes == (self@.wake_up_tomorrow.spec_minutes()
                - slot.spec_end().spec_minutes()) % 1440 && w == self@.wake_up_tomorrow),
    {
        match self.last_timed_slot() {
            None => None,
            Some(slot) => {
                proof {
                    lemma_last_slot_wf(self@.timeboxes);
                }
                let last_time = slot.end();
                let time_left = self.wake_up_tomorrow.since(&last_time);
                let wake_up_at = last_time.plus(&time_left);
                proof {
                    // The end time plus the distance to wake-up lands exactly
                    // on the wake-up anchor.
                    crate::time::lemma_time_of_day_identity(self@.wake_up_tomorrow);
                    vstd::arithmetic::div_mod::lemma_mod_multiples_vanish(
                        1,
                        self@.wake_up_tomorrow.spec_minutes() - last_time.spec_minutes(),
                        1440,
                    );
                    vstd::arithmetic::div_mod::lemma_small_mod(
                        (last_time.spec_minutes()) as nat,
                        1440,
                    );
                    lemma_plus_since_round_trip(last_time, self@.wake_up_tomorrow);
                }
                Some((time_left, wake_up_at))
            }
        }
    }
}

/// A slot found in a schedule whose times are all well formed is well
/// formed.
pub proof fn lemma_last_slot_wf(boxes: Seq<TimeBoxView>)
    requires
        forall|i: int| 0 <= i < boxes.len() ==> (#[trigger] boxes[i]).time_wf(),
    ensures
        spec_last_slot(boxes) matches Some(slot) ==> slot.wf(),
    decreases boxes.len(),
{
    if boxes.len() > 0 {
        match boxes.last().time {
            Some(slot) => {
                assert(boxes[boxes.len() - 1].time_wf());
            }
            None => {
                lemma_last_slot_wf(boxes.drop_last());
            }
        }
    }
}

/// Moving from a time by the wraparound distance to a target lands on the
/// target: `t + (w - t) == w` up to the 24-hour wrap.
pub proof fn lemma_plus_since_round_trip(t: Time, w: Time)
    requires
        t.wf(),
        w.wf(),
    ensures
        time_of_day(t.spec_minutes() + (w.spec_minutes() - t.spec_minutes()) % 1440) == w,
{
    let d = (w.spec_minutes() - t.spec_minutes()) % 1440;
    vstd::arithmetic::div_mod::lemma_mod_multiples_vanish(
        1,
        w.spec_minutes() - t.spec_minutes(),
        1440,
    );
    // t + ((w - t) mod 1440) is congruent to w modulo a day
    assert((t.spec_minutes() + d) % 1440 == w.spec_minutes() % 1440) by {
        vstd::arithmetic::div_mod::lemma_add_mod_noop(
            t.spec_minutes(),
            (w.spec_minutes() - t.spec_minutes()) % 1440,
            1440,
        );
        vstd::arithmetic::div_mod::lemma_add_mod_noop(
            t.spec_minutes(),
            w.spec_minutes() - t.spec_minutes(),
            1440,
        );
        vstd::arithmetic::div_mod::lemma_mod_twice(t.spec_minutes(), 1440);
    };
    vstd::arithmetic::div_mod::lemma_small_mod(w.spec_minutes() as nat, 1440);
    crate::time::lemma_time_of_day_identity(w);
}

} // verus!
