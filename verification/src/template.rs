//! Daily templates: the shape a schedule is generated from.
//!
//! A template is a list of time-box templates; each may carry a time slot
//! template whose times are either the running clock (`%H:%M`), a relative
//! step (`+0:15`), or an absolute time (`14:00`).  Converting a template to a
//! schedule threads a running clock through the boxes, starting at wake-up.

use crate::dom::Activity;
use crate::dom::ActivityView;
use crate::dom::AdjustPolicy;
use crate::dom::TimeBox;
use crate::dom::TimeBoxView;
use crate::dom::TimeSlotKind;
use crate::schedule::Schedule;
use crate::schedule::ScheduleView;
use crate::time::Duration;
use crate::time::Time;
use crate::time::time_of_day;
use vstd::prelude::*;

verus! {

/// A daily template of activities, loadable from a file.
#[derive(Debug)]
pub struct Template(pub Vec<TimeBoxTemplate>);

/// One template line: an optional slot template plus the activity.
#[derive(Debug)]
pub struct TimeBoxTemplate {
    pub time: Option<TimeSlotTemplate>,
    pub activity: Activity,
}

/// A slot template: a single time, e.g. `%H:%M` or `+0:15`, or a span,
/// e.g. `%H:%M--%H:%M` or `+1:00--+00:30`.
#[derive(Clone, Copy, Debug, PartialEq, Eq, Structural)]
pub enum TimeSlotTemplate {
    Time(TimeTemplate),
    Span(TimeTemplate, TimeTemplate),
}

/// A time template: the running clock (`%H:%M`), a step relative to it
/// (`+0:15`), or an absolute time of day (`14:00`).
#[derive(Clone, Copy, Debug, PartialEq, Eq, Structural)]
pub enum TimeTemplate {
    TimeFormat,
    RelativeTime(Duration),
    AbsoluteTime(Duration),
}

/// Everything beyond the template the schedule is generated from: the two
/// wake-up anchors, the default span length, and the optional twilight
/// markers.
#[derive(Clone, Copy, Debug)]
pub struct TemplateMeta {
    pub wake_up_today: Time,
    pub wake_up_tomorrow: Time,
    pub span_len: Duration,
    pub sunrise: Option<Time>,
    pub sunset: Option<Time>,
}

/// The mathematical content of a [`TimeBoxTemplate`].
#[verifier::ext_equal]
pub struct TimeBoxTemplateView {
    pub time: Option<TimeSlotTemplate>,
    pub activity: ActivityView,
}

impl View for TimeBoxTemplate {
    type V = TimeBoxTemplateView;

    open spec fn view(&self) -> TimeBoxTemplateView {
        TimeBoxTemplateView { time: self.time, activity: self.activity@ }
    }
}

impl View for Template {
    type V = Seq<TimeBoxTemplateView>;

    open spec fn view(&self) -> Seq<TimeBoxTemplateView> {
        self.0@.map_values(|t: TimeBoxTemplate| t@)
    }
}

/// The time of day a non-negative duration below 25 hours reads as.
pub open spec fn spec_time_of_duration(m: int) -> Time {
    Time { hour: (m / 60) as u8, min: (m % 60) as u8 }
}

/// The clock value a time template resolves to at the start of a slot: the
/// running clock itself, the clock advanced by a relative step, or the
/// absolute time.
pub open spec fn spec_resolve_start(tt: TimeTemplate, cur: Time) -> Time {
    match tt {
        TimeTemplate::TimeFormat => cur,
        TimeTemplate::RelativeTime(d) => time_of_day(cur.spec_minutes() + d.minutes),
        TimeTemplate::AbsoluteTime(d) => spec_time_of_duration(d.minutes as int),
    }
}

/// The clock value a time template resolves to at the end of a span: the
/// running clock advanced by the default span length, by the given relative
/// step, or set to the absolute time.
pub open spec fn spec_resolve_end(tt: TimeTemplate, cur: Time, span_len: int) -> Time {
    match tt {
        TimeTemplate::TimeFormat => time_of_day(cur.spec_minutes() + span_len),
        TimeTemplate::RelativeTime(d) => time_of_day(cur.spec_minutes() + d.minutes),
        TimeTemplate::AbsoluteTime(d) => spec_time_of_duration(d.minutes as int),
    }
}

/// The slot a template line yields and the running clock after it.
pub open spec fn spec_time_box_slot(
    t: Option<TimeSlotTemplate>,
    cur: Time,
    span_len: int,
) -> (Option<TimeSlotKind>, Time) {
    match t {
        None => (None, cur),
        Some(TimeSlotTemplate::Time(tt)) => {
            let c = spec_resolve_start(tt, cur);
            (Some(TimeSlotKind::Time(c)), c)
        },
        Some(TimeSlotTemplate::Span(start, end)) => {
            let c1 = spec_resolve_start(start, cur);
            let c2 = spec_resolve_end(end, c1, span_len);
            (Some(TimeSlotKind::Span(c1, c2)), c2)
        },
    }
}

/// The box a template line yields: its slot plus the activity, not done,
/// normal adjust policy.
pub open spec fn spec_time_box(t: TimeBoxTemplateView, cur: Time, span_len: int) -> TimeBoxView {
    TimeBoxView {
        time: spec_time_box_slot(t.time, cur, span_len).0,
        activity: t.activity,
        done: false,
        adjust_policy: AdjustPolicy::Normal,
    }
}

/// Every absolute time in the slot template reads as a well-formed time of
/// day.
pub open spec fn slot_template_wf(t: Option<TimeSlotTemplate>) -> bool {
    match t {
        None => true,
        Some(TimeSlotTemplate::Time(tt)) => time_template_wf(tt),
        Some(TimeSlotTemplate::Span(a, b)) => time_template_wf(a) && time_template_wf(b),
    }
}

/// An absolute time stays below 24 hours (the model's hard limit); relative
/// steps and the clock format are unconstrained.
pub open spec fn time_template_wf(tt: TimeTemplate) -> bool {
    match tt {
        TimeTemplate::AbsoluteTime(d) => 0 <= d.minutes < 1440,
        _ => true,
    }
}

impl TimeTemplate {
    fn resolve_start(&self, cur: &Time) -> (r: Time)
        requires
            cur.wf(),
            time_template_wf(*self),
        ensures
            r == spec_resolve_start(*self, *cur),
            r.wf(),
    {
        match self {
            TimeTemplate::TimeFormat => *cur,
            TimeTemplate::RelativeTime(d) => cur.plus(d),
            TimeTemplate::AbsoluteTime(d) => {
                let t = Time::from_duration(d);
                proof {
                    assert(0 <= d.minutes / 60 < 24 && 0 <= d.minutes % 60 < 60)
                        by (nonlinear_arith)
                        requires 0 <= d.minutes < 1440;
                }
                t
            }
        }
    }

    fn resolve_end(&self, cur: &Time, span_len: &Duration) -> (r: Time)
        requires
            cur.wf(),
            time_template_wf(*self),
        ensures
            r == spec_resolve_end(*self, *cur, span_len.minutes as int),
            r.wf(),
    {
        match self {
            TimeTemplate::TimeFormat => cur.plus(span_len),
            TimeTemplate::RelativeTime(d) => cur.plus(d),
            TimeTemplate::AbsoluteTime(d) => {
                let t = Time::from_duration(d);
                proof {
                    assert(0 <= d.minutes / 60 < 24 && 0 <= d.minutes % 60 < 60)
                        by (nonlinear_arith)
                        requires 0 <= d.minutes < 1440;
                }
                t
            }
        }
    }
}

impl TimeBoxTemplate {
    /// The box this template line yields, advancing the running clock.
    fn time_box(&self, cur_time: &mut Time, span_len: &Duration) -> (r: TimeBox)
        requires
            old(cur_time).wf(),
            slot_template_wf(self@.time),
        ensures
            r@ == spec_time_box(self@, *old(cur_time), span_len.minutes as int),
            *final(cur_time) == spec_time_box_slot(
                self@.time,
                *old(cur_time),
                span_len.minutes as int,
            ).1,
            final(cur_time).wf(),
    {
        let time: Option<TimeSlotKind> = match &self.time {
            None => None,
            Some(TimeSlotTemplate::Time(tt)) => {
                let c = tt.resolve_start(cur_time);
                *cur_time = c;
                Some(TimeSlotKind::Time(c))
            }
            Some(TimeSlotTemplate::Span(start, end)) => {
                let c1 = start.resolve_start(cur_time);
                let c2 = end.resolve_end(&c1, span_len);
                *cur_time = c2;
                Some(TimeSlotKind::Span(c1, c2))
            }
        };

        let activity = self.activity.clone();

        TimeBox { time, activity, done: false, adjust_policy: AdjustPolicy::Normal }
    }
}

/// The boxes a template's lines yield, threading the running clock through
/// them from first to last.
pub open spec fn spec_template_boxes(
    ts: Seq<TimeBoxTemplateView>,
    cur: Time,
    span_len: int,
) -> Seq<TimeBoxView>
    decreases ts.len(),
{
    if ts.len() == 0 {
        Seq::empty()
    } else {
        let b = spec_time_box(ts[0], cur, span_len);
        let c2 = spec_time_box_slot(ts[0].time, cur, span_len).1;
        seq![b] + spec_template_boxes(ts.drop_first(), c2, span_len)
    }
}

impl Template {
    /// Generates the schedule: each template line becomes one box, the
    /// running clock starts at today's wake-up, and the meta data fills the
    /// schedule's anchors and twilight markers.
    pub fn schedule(&self, meta: TemplateMeta) -> (r: Schedule)
        requires
            meta.wake_up_today.wf(),
            forall|i: int| 0 <= i < self@.len() ==> slot_template_wf(
                (#[trigger] self@[i]).time,
            ),
        ensures
            r@ == (ScheduleView {
                timeboxes: spec_template_boxes(
                    self@,
                    meta.wake_up_today,
                    meta.span_len.minutes as int,
                ),
                wake_up: meta.wake_up_today,
                wake_up_tomorrow: meta.wake_up_tomorrow,
                sunrise: meta.sunrise,
                sunset: meta.sunset,
            }),
    {
        let ghost templates = self@;
        let mut time = meta.wake_up_today;
        let mut timeboxes: Vec<TimeBox> = Vec::new();
        let n = self.0.len();
        let mut i: usize = 0;
        proof {
            assert(templates.skip(0) =~= templates);
            assert(timeboxes@.map_values(|b: TimeBox| b@) =~= Seq::<TimeBoxView>::empty());
        }
        while i < n
            invariant
                i <= n,
                n == templates.len(),
                templates == self@,
                time.wf(),
                forall|j: int| 0 <= j < templates.len() ==> slot_template_wf(
                    (#[trigger] templates[j]).time,
                ),
                spec_template_boxes(templates, meta.wake_up_today, meta.span_len.minutes as int)
                    == timeboxes@.map_values(|b: TimeBox| b@) + spec_template_boxes(
                    templates.skip(i as int),
                    time,
                    meta.span_len.minutes as int,
                ),
            decreases n - i,
        {
            let ghost prev_boxes = timeboxes@.map_values(|b: TimeBox| b@);
            let ghost prev_time = time;
            let time_box = self.0[i].time_box(&mut time, &meta.span_len);
            timeboxes.push(time_box);
            proof {
                let rest = templates.skip(i as int);
                assert(rest[0] == templates[i as int]);
                assert(rest.drop_first() =~= templates.skip(i as int + 1));
                assert(timeboxes@.map_values(|b: TimeBox| b@) =~= prev_boxes.push(
                    spec_time_box(templates[i as int], prev_time, meta.span_len.minutes as int),
                ));
                assert(prev_boxes + (seq![
                    spec_time_box(templates[i as int], prev_time, meta.span_len.minutes as int),
                ] + spec_template_boxes(
                    templates.skip(i as int + 1),
                    time,
                    meta.span_len.minutes as int,
                )) =~= timeboxes@.map_values(|b: TimeBox| b@) + spec_template_boxes(
                    templates.skip(i as int + 1),
                    time,
                    meta.span_len.minutes as int,
                ));
            }
            i = i + 1;
        }
        proof {
            assert(templates.skip(n as int).len() == 0);
            assert(timeboxes@.map_values(|b: TimeBox| b@) + Seq::<TimeBoxView>::empty()
                =~= timeboxes@.map_values(|b: TimeBox| b@));
        }
        Schedule {
            timeboxes,
            wake_up: meta.wake_up_today,
            wake_up_tomorrow: meta.wake_up_tomorrow,
            sunrise: meta.sunrise,
            sunset: meta.sunset,
        }
    }
}

} // verus!
