//! The schedule's domain model: activities, time slots and time boxes.

use crate::schedule::Schedule;
use crate::text::spec_trim;
use crate::text::trim;
use crate::time::Duration;
use crate::time::Time;
use crate::time::time_of_day;
use vstd::prelude::*;

verus! {

/// A coarse classification of an activity, used for rendering only.
#[derive(Clone, Copy, Debug, PartialEq, Eq, Structural)]
pub enum ActivityKind {
    Unknown,
    Meal,
    Sprint,
}

/// Errors from reading an activity out of text.  No failing case exists
/// today, so no function ever returns a value of this type.
#[derive(Clone, Copy, Debug, PartialEq, Eq, Structural)]
pub struct ActivityDeserializationError;

/// An activity with a kind and a summary.  Kind is unknown by default.
#[derive(Debug)]
pub struct Activity {
    pub summary: String,
    pub kind: ActivityKind,
}

/// The mathematical content of an [`Activity`].
#[verifier::ext_equal]
pub struct ActivityView {
    pub summary: Seq<char>,
    pub kind: ActivityKind,
}

impl View for Activity {
    type V = ActivityView;

    open spec fn view(&self) -> ActivityView {
        ActivityView { summary: self.summary@, kind: self.kind }
    }
}

impl Clone for Activity {
    fn clone(&self) -> (r: Self)
        ensures
            r@ == self@,
    {
        Activity { summary: self.summary.clone(), kind: self.kind }
    }
}

impl Default for Activity {
    fn default() -> (r: Self)
        ensures
            r@.summary == Seq::<char>::empty(),
            r@.kind == ActivityKind::Unknown,
    {
        Activity { summary: String::new(), kind: ActivityKind::Unknown }
    }
}

impl Activity {
    /// Reads an activity from plain text: the trimmed text becomes the
    /// summary and the kind stays unknown.
    pub fn from_str(s: &str) -> (r: Result<Activity, ActivityDeserializationError>)
        ensures
            r matches Ok(a) && a@.summary == spec_trim(s@) && a@.kind == ActivityKind::Unknown,
    {
        Ok(Activity { kind: ActivityKind::Unknown, summary: trim(s) })
    }
}

/// A point in time or a start–end span.
#[derive(Clone, Copy, Debug, PartialEq, Eq, Structural)]
pub enum TimeSlotKind {
    Time(Time),
    Span(Time, Time),
}

impl TimeSlotKind {
    /// All times in the slot are well-formed times of day.
    pub open spec fn wf(self) -> bool {
        match self {
            TimeSlotKind::Time(t) => t.wf(),
            TimeSlotKind::Span(start, end) => start.wf() && end.wf(),
        }
    }

    /// The slot's start time; slots order by it.
    pub open spec fn spec_start(self) -> Time {
        match self {
            TimeSlotKind::Time(t) => t,
            TimeSlotKind::Span(start, _) => start,
        }
    }

    /// The slot after shifting by `d` minutes.  For a span, `adjust_start`
    /// chooses whether the start moves along with the end.
    pub open spec fn spec_adjust(self, d: int, adjust_start: bool) -> TimeSlotKind {
        match self {
            TimeSlotKind::Time(t) => TimeSlotKind::Time(time_of_day(t.spec_minutes() + d)),
            TimeSlotKind::Span(start, end) => TimeSlotKind::Span(
                if adjust_start { time_of_day(start.spec_minutes() + d) } else { start },
                time_of_day(end.spec_minutes() + d),
            ),
        }
    }

    /// Orders two slots by their start times: whether this slot starts at
    /// or before the other (slots compare by start time alone).
    pub fn starts_no_later_than(&self, other: &TimeSlotKind) -> (r: bool)
        ensures
            r == (self.spec_start().spec_minutes() <= other.spec_start().spec_minutes()),
    {
        let a = self.start();
        let b = other.start();
        (a.hour as u16 * 60 + a.min as u16) <= (b.hour as u16 * 60 + b.min as u16)
    }

    /// The slot's end: the time itself, or a span's end.
    pub open spec fn spec_end(self) -> Time {
        match self {
            TimeSlotKind::Time(t) => t,
            TimeSlotKind::Span(_, end) => end,
        }
    }

    /// The slot's end time.
    pub fn end(&self) -> (t: Time)
        ensures
            t == self.spec_end(),
    {
        match self {
            TimeSlotKind::Time(t) => *t,
            TimeSlotKind::Span(_, end) => *end,
        }
    }

    /// The slot's start time.
    pub fn start(&self) -> (t: Time)
        ensures
            t == self.spec_start(),
    {
        match self {
            TimeSlotKind::Time(t) => *t,
            TimeSlotKind::Span(start, _) => *start,
        }
    }

    /// Shifts the slot by `adjust_duration`.  For a span, only the end moves
    /// unless `adjust_start` is set.
    pub fn adjust_absolute(&mut self, adjust_duration: &Duration, adjust_start: bool)
        requires
            old(self).wf(),
        ensures
            *final(self) == old(self).spec_adjust(adjust_duration.minutes as int, adjust_start),
            final(self).wf(),
    {
        match *self {
            TimeSlotKind::Time(t) => {
                *self = TimeSlotKind::Time(t.plus(adjust_duration));
            }
            TimeSlotKind::Span(start, end) => {
                let new_start = if adjust_start { start.plus(adjust_duration) } else { start };
                *self = TimeSlotKind::Span(new_start, end.plus(adjust_duration));
            }
        }
    }

    /// The slot after toggling between a point time and a span: a time
    /// becomes the empty span at that time; a span collapses to its start.
    pub open spec fn spec_toggle(self) -> TimeSlotKind {
        match self {
            TimeSlotKind::Time(t) => TimeSlotKind::Span(t, t),
            TimeSlotKind::Span(start, _) => TimeSlotKind::Time(start),
        }
    }

    /// Toggling twice recovers the original point time exactly.
    pub proof fn lemma_span_toggle_round_trip(t: Time)
        ensures
            TimeSlotKind::Time(t).spec_toggle().spec_toggle() == TimeSlotKind::Time(t),
    {
    }

    /// Shifting preserves well-formedness of the slot's times.
    pub proof fn lemma_adjust_wf(self, d: int, adjust_start: bool)
        requires
            self.wf(),
        ensures
            self.spec_adjust(d, adjust_start).wf(),
    {
        match self {
            TimeSlotKind::Time(t) => {
                crate::time::lemma_time_of_day_wf(t.spec_minutes() + d);
            }
            TimeSlotKind::Span(start, end) => {
                crate::time::lemma_time_of_day_wf(start.spec_minutes() + d);
                crate::time::lemma_time_of_day_wf(end.spec_minutes() + d);
            }
        }
    }

    /// The time a box at position `insert_at` inherits: the slot of the
    /// nearest preceding box that has one, or wake-up time if none has.
    pub fn inherit_time(insert_at: usize, schedule: &Schedule) -> (r: TimeSlotKind)
        requires
            insert_at <= schedule@.timeboxes.len(),
        ensures
            r == spec_inherit_time(schedule@, insert_at as int),
    {
        let mut i: usize = insert_at;
        while i > 0
            invariant
                i <= insert_at,
                insert_at <= schedule@.timeboxes.len(),
                spec_inherit_time(schedule@, insert_at as int) == spec_inherit_time(
                    schedule@,
                    i as int,
                ),
            decreases i,
        {
            let idx = i - 1;
            match schedule.timeboxes[idx].time {
                Some(t) => {
                    return t;
                }
                None => {
                    i = idx;
                }
            }
        }
        TimeSlotKind::Time(schedule.wake_up)
    }
}

/// The slot inherited at position `at`: scanning backward, the first slot of
/// a timed box, else the schedule's wake-up time.
pub open spec fn spec_inherit_time(s: crate::schedule::ScheduleView, at: int) -> TimeSlotKind
    decreases at when 0 <= at
{
    if at <= 0 {
        TimeSlotKind::Time(s.wake_up)
    } else {
        match s.timeboxes[at - 1].time {
            Some(t) => t,
            None => spec_inherit_time(s, at - 1),
        }
    }
}

/// An inherited slot is well formed when the schedule's times and wake-up
/// anchor are.
pub proof fn lemma_inherit_time_wf(s: crate::schedule::ScheduleView, at: int)
    requires
        0 <= at <= s.timeboxes.len(),
        s.wake_up.wf(),
        forall|i: int| 0 <= i < s.timeboxes.len() ==> (#[trigger] s.timeboxes[i]).time_wf(),
    ensures
        spec_inherit_time(s, at).wf(),
    decreases at,
{
    if at > 0 {
        match s.timeboxes[at - 1].time {
            Some(t) => {
                assert(s.timeboxes[at - 1].time_wf());
            }
            None => {
                lemma_inherit_time_wf(s, at - 1);
            }
        }
    }
}

/// A view of a box with its slot replaced.
pub open spec fn with_time(b: TimeBoxView, t: Option<TimeSlotKind>) -> TimeBoxView {
    TimeBoxView { time: t, ..b }
}

/// How a box takes part in cascading time shifts.
#[derive(Clone, Copy, Debug, PartialEq, Eq, Structural)]
pub enum AdjustPolicy {
    Normal,
    /// This time does not move unless moved as the primary item.
    Fixed,
}

/// One schedule line: an activity container with an optional time slot, a
/// done flag and an adjust policy.
#[derive(Debug)]
pub struct TimeBox {
    pub time: Option<TimeSlotKind>,
    pub activity: Activity,
    pub done: bool,
    pub adjust_policy: AdjustPolicy,
}

/// The mathematical content of a [`TimeBox`].
#[verifier::ext_equal]
pub struct TimeBoxView {
    pub time: Option<TimeSlotKind>,
    pub activity: ActivityView,
    pub done: bool,
    pub adjust_policy: AdjustPolicy,
}

impl View for TimeBox {
    type V = TimeBoxView;

    open spec fn view(&self) -> TimeBoxView {
        TimeBoxView {
            time: self.time,
            activity: self.activity@,
            done: self.done,
            adjust_policy: self.adjust_policy,
        }
    }
}

impl Clone for TimeBox {
    fn clone(&self) -> (r: Self)
        ensures
            r@ == self@,
    {
        TimeBox {
            time: self.time,
            activity: self.activity.clone(),
            done: self.done,
            adjust_policy: self.adjust_policy,
        }
    }
}

/// The content of a freshly inserted line: no time, empty text, not done,
/// normal adjust policy.
pub open spec fn empty_time_box() -> TimeBoxView {
    TimeBoxView {
        time: None,
        activity: ActivityView { summary: Seq::empty(), kind: ActivityKind::Unknown },
        done: false,
        adjust_policy: AdjustPolicy::Normal,
    }
}

impl Default for TimeBox {
    fn default() -> (r: Self)
        ensures
            r@ == empty_time_box(),
    {
        TimeBox {
            time: None,
            activity: Activity::default(),
            done: false,
            adjust_policy: AdjustPolicy::Normal,
        }
    }
}

impl TimeBoxView {
    /// Any slot the box has is well formed.
    pub open spec fn time_wf(self) -> bool {
        match self.time {
            Some(slot) => slot.wf(),
            None => true,
        }
    }

    /// The box after shifting its slot (if any) by `d` minutes.
    pub open spec fn spec_adjust(self, d: int, adjust_start: bool) -> TimeBoxView {
        TimeBoxView {
            time: match self.time {
                Some(slot) => Some(slot.spec_adjust(d, adjust_start)),
                None => None,
            },
            ..self
        }
    }
}

/// Shifting a box's slot preserves well-formedness of its times.
pub proof fn lemma_box_adjust_wf(b: TimeBoxView, d: int, adjust_start: bool)
    requires
        b.time_wf(),
    ensures
        b.spec_adjust(d, adjust_start).time_wf(),
{
    match b.time {
        Some(slot) => {
            slot.lemma_adjust_wf(d, adjust_start);
        }
        None => {}
    }
}

impl TimeBox {
    /// Shifts the box's slot, if it has one, by `adjust_duration`.
    pub fn adjust_absolute(&mut self, adjust_duration: &Duration, adjust_start: bool)
        requires
            old(self)@.time_wf(),
        ensures
            final(self)@ == old(self)@.spec_adjust(adjust_duration.minutes as int, adjust_start),
            final(self)@.time_wf(),
    {
        match self.time {
            Some(slot) => {
                let mut adjusted = slot;
                adjusted.adjust_absolute(adjust_duration, adjust_start);
                self.time = Some(adjusted);
            }
            None => {}
        }
    }
}

} // verus!
