//! The schedule: an ordered list of time boxes with its wake-up anchors.

use crate::dom::TimeBox;
use crate::dom::TimeBoxView;
use crate::time::Duration;
use crate::time::Time;
use vstd::prelude::*;

verus! {

/// The main data structure: the schedule lines in display order, the wake-up
/// time of today, the wake-up time of tomorrow (used to compute trailing
/// free time), and optional sunrise/sunset markers for colour banding.
#[derive(Debug)]
pub struct Schedule {
    pub timeboxes: Vec<TimeBox>,
    pub wake_up: Time,
    pub wake_up_tomorrow: Time,
    pub sunrise: Option<Time>,
    pub sunset: Option<Time>,
}

/// The mathematical content of a [`Schedule`].
#[verifier::ext_equal]
pub struct ScheduleView {
    pub timeboxes: Seq<TimeBoxView>,
    pub wake_up: Time,
    pub wake_up_tomorrow: Time,
    pub sunrise: Option<Time>,
    pub sunset: Option<Time>,
}

impl View for Schedule {
    type V = ScheduleView;

    open spec fn view(&self) -> ScheduleView {
        ScheduleView {
            timeboxes: self.timeboxes@.map_values(|b: TimeBox| b@),
            wake_up: self.wake_up,
            wake_up_tomorrow: self.wake_up_tomorrow,
            sunrise: self.sunrise,
            sunset: self.sunset,
        }
    }
}

impl ScheduleView {
    /// All times in the schedule are well-formed times of day.
    pub open spec fn wf(self) -> bool {
        &&& self.wake_up.wf()
        &&& self.wake_up_tomorrow.wf()
        &&& forall|i: int| 0 <= i < self.timeboxes.len() ==> (#[trigger] self.timeboxes[i]).time_wf()
    }

    /// The schedule's lines fit terminal coordinates: the number of lines
    /// and each line's text (beside the at most 22-character time column)
    /// stay within `u16` range, and every time is well formed.
    pub open spec fn fits_terminal(self) -> bool {
        &&& self.timeboxes.len() <= u16::MAX
        &&& forall|i: int| 0 <= i < self.timeboxes.len() ==> (#[trigger] self.timeboxes[i]).time_wf()
        &&& forall|i: int| 0 <= i < self.timeboxes.len()
            ==> (#[trigger] self.timeboxes[i]).activity.summary.len() <= u16::MAX - 23
    }

    /// The schedule after a cascading shift: the box at `primary` moves by
    /// `d` minutes (`both` says whether a span's start moves too), every
    /// later box not pinned `Fixed` shifts fully by `d`, and pinned boxes
    /// and boxes before the primary hold their place.
    pub open spec fn spec_cascade(self, primary: int, d: int, both: bool) -> ScheduleView {
        ScheduleView {
            timeboxes: Seq::new(
                self.timeboxes.len(),
                |i: int|
                    if i == primary {
                        self.timeboxes[i].spec_adjust(d, both)
                    } else if i > primary && self.timeboxes[i].adjust_policy
                        != crate::dom::AdjustPolicy::Fixed {
                        self.timeboxes[i].spec_adjust(d, true)
                    } else {
                        self.timeboxes[i]
                    },
            ),
            ..self
        }
    }

    /// The schedule with one box replaced.
    pub open spec fn with_box(self, idx: int, b: TimeBoxView) -> ScheduleView {
        ScheduleView { timeboxes: self.timeboxes.update(idx, b), ..self }
    }
}

/// A cascading shift keeps every slot well formed and every line's text
/// unchanged, so a schedule that fits the terminal still fits.
pub proof fn lemma_cascade_fits(pre: ScheduleView, line: int, d: int, both: bool)
    requires
        0 <= line < pre.timeboxes.len(),
        pre.fits_terminal(),
    ensures
        pre.spec_cascade(line, d, both).fits_terminal(),
        pre.spec_cascade(line, d, both).timeboxes.len() == pre.timeboxes.len(),
{
    let post = pre.spec_cascade(line, d, both);
    assert forall|i: int| 0 <= i < post.timeboxes.len() implies (
    #[trigger] post.timeboxes[i]).time_wf() by {
        assert(pre.timeboxes[i].time_wf());
        if i == line {
            crate::dom::lemma_box_adjust_wf(pre.timeboxes[i], d, both);
        } else if i > line && pre.timeboxes[i].adjust_policy != crate::dom::AdjustPolicy::Fixed {
            crate::dom::lemma_box_adjust_wf(pre.timeboxes[i], d, true);
        }
    }
    assert forall|i: int| 0 <= i < post.timeboxes.len() implies (
    #[trigger] post.timeboxes[i]).activity.summary.len() <= u16::MAX - 23 by {
        assert(pre.timeboxes[i].activity.summary.len() <= u16::MAX - 23);
    }
}

/// Inserting an element anywhere adds exactly it to the sequence's multiset
/// of boxes.
proof fn lemma_insert_to_multiset(s: Seq<TimeBoxView>, i: int, b: TimeBoxView)
    requires
        0 <= i <= s.len(),
    ensures
        s.insert(i, b).to_multiset() =~= s.to_multiset().insert(b),
{
    broadcast use vstd::seq_lib::group_to_multiset_ensures;
    broadcast use vstd::multiset::group_multiset_axioms;

    let head = s.subrange(0, i);
    let tail = s.subrange(i, s.len() as int);
    vstd::seq_lib::lemma_multiset_commutative(head.push(b), tail);
    vstd::seq_lib::lemma_multiset_commutative(head, tail);
    assert(s =~= head + tail);
    assert(head.push(b).to_multiset() =~= head.to_multiset().insert(b));
}

/// Cutting the box on one line and pasting it back on any line reproduces a
/// schedule of the same length with the same boxes (though not necessarily
/// in the same places).
pub proof fn lemma_cut_paste_preserves_content(boxes: Seq<TimeBoxView>, cut: int, paste: int)
    requires
        0 <= cut < boxes.len(),
        0 <= paste <= boxes.len() - 1,
    ensures
        boxes.remove(cut).insert(paste, boxes[cut]).len() == boxes.len(),
        boxes.remove(cut).insert(paste, boxes[cut]).to_multiset() =~= boxes.to_multiset(),
{
    broadcast use vstd::seq_lib::group_to_multiset_ensures;
    broadcast use vstd::multiset::group_multiset_axioms;

    let b = boxes[cut];
    let rest = boxes.remove(cut);
    lemma_insert_to_multiset(rest, paste, b);
    assert(rest.to_multiset() =~= boxes.to_multiset().remove(b));
    assert(boxes.contains(b)) by {
        assert(boxes[cut] == b);
    }
    assert(boxes.to_multiset().count(b) > 0);
    assert(boxes.to_multiset().remove(b).insert(b) =~= boxes.to_multiset());
}

impl Schedule {
    /// The box on the given line, if the line exists.
    pub fn line(&self, idx: usize) -> (r: Option<&TimeBox>)
        ensures
            idx < self@.timeboxes.len() ==> (r matches Some(b) && b@ == self@.timeboxes[
                idx as int
            ]),
            idx >= self@.timeboxes.len() ==> r is None,
    {
        if idx < self.timeboxes.len() {
            Some(&self.timeboxes[idx])
        } else {
            None
        }
    }

    /// Inserts a fresh, empty time box at `idx`, shifting later lines down.
    /// Always succeeds and reports that a redraw is needed.
    pub fn insert_time_box(&mut self, idx: usize) -> (redraw: bool)
        requires
            idx <= old(self)@.timeboxes.len(),
        ensures
            final(self)@.timeboxes == old(self)@.timeboxes.insert(
                idx as int,
                crate::dom::empty_time_box(),
            ),
            final(self)@ == (ScheduleView { timeboxes: final(self)@.timeboxes, ..old(self)@ }),
            redraw == true,
    {
        self.timeboxes.insert(idx, TimeBox::default());
        proof {
            assert(self@.timeboxes =~= old(self)@.timeboxes.insert(
                idx as int,
                crate::dom::empty_time_box(),
            ));
        }
        true
    }

    /// Shifts the time of the box at `idx` by `adjust_duration`.  For a
    /// span, `time_cursor` selects whether both ends move (`0`) or only the
    /// end does (any other value).
    pub fn adjust_time_absolute(&mut self, idx: usize, adjust_duration: &Duration, time_cursor: usize)
        requires
            idx < old(self)@.timeboxes.len(),
            old(self)@.timeboxes[idx as int].time_wf(),
        ensures
            final(self)@ == old(self)@.with_box(
                idx as int,
                old(self)@.timeboxes[idx as int].spec_adjust(
                    adjust_duration.minutes as int,
                    time_cursor == 0,
                ),
            ),
    {
        let mut time_box = self.timeboxes[idx].clone();
        time_box.adjust_absolute(adjust_duration, time_cursor == 0);
        self.timeboxes[idx] = time_box;
        proof {
            assert(self@.timeboxes =~= old(self)@.timeboxes.update(
                idx as int,
                old(self)@.timeboxes[idx as int].spec_adjust(
                    adjust_duration.minutes as int,
                    time_cursor == 0,
                ),
            ));
        }
    }

    /// Shifts the box at `primary_index` as [`Self::adjust_time_absolute`]
    /// does, then pushes every later box that is not pinned `Fixed` by the
    /// same amount (start and end together), cascading to the end of the
    /// list.  Pinned boxes and boxes before the primary hold their place.
    pub fn adjust_times_relative(
        &mut self,
        primary_index: usize,
        adjust_duration: &Duration,
        time_cursor: usize,
    )
        requires
            primary_index < old(self)@.timeboxes.len(),
            forall|i: int| 0 <= i < old(self)@.timeboxes.len()
                ==> (#[trigger] old(self)@.timeboxes[i]).time_wf(),
        ensures
            final(self)@.timeboxes.len() == old(self)@.timeboxes.len(),
            final(self)@ == (ScheduleView { timeboxes: final(self)@.timeboxes, ..old(self)@ }),
            forall|i: int| 0 <= i < primary_index
                ==> final(self)@.timeboxes[i] == old(self)@.timeboxes[i],
            final(self)@.timeboxes[primary_index as int] == old(self)@.timeboxes[
                primary_index as int
            ].spec_adjust(adjust_duration.minutes as int, time_cursor == 0),
            forall|i: int| primary_index < i < old(self)@.timeboxes.len()
                && (#[trigger] old(self)@.timeboxes[i]).adjust_policy == crate::dom::AdjustPolicy::Fixed
                ==> final(self)@.timeboxes[i] == old(self)@.timeboxes[i],
            forall|i: int| primary_index < i < old(self)@.timeboxes.len()
                && (#[trigger] old(self)@.timeboxes[i]).adjust_policy != crate::dom::AdjustPolicy::Fixed
                ==> final(self)@.timeboxes[i] == old(self)@.timeboxes[i].spec_adjust(
                    adjust_duration.minutes as int,
                    true,
                ),
            final(self)@ == old(self)@.spec_cascade(
                primary_index as int,
                adjust_duration.minutes as int,
                time_cursor == 0,
            ),
    {
        self.adjust_time_absolute(primary_index, adjust_duration, time_cursor);

        let ghost orig = old(self)@;
        let n = self.timeboxes.len();
        proof {
            assert(n == self@.timeboxes.len());
            assert(self@.timeboxes.len() == old(self)@.timeboxes.len());
            assert(primary_index < n);
        }
        let mut idx: usize = primary_index + 1;
        while idx < self.timeboxes.len()
            invariant
                primary_index < idx <= self@.timeboxes.len(),
                self@.timeboxes.len() == orig.timeboxes.len(),
                self@ == (ScheduleView { timeboxes: self@.timeboxes, ..orig }),
                forall|i: int| 0 <= i < primary_index ==> self@.timeboxes[i] == orig.timeboxes[i],
                self@.timeboxes[primary_index as int] == orig.timeboxes[
                    primary_index as int
                ].spec_adjust(adjust_duration.minutes as int, time_cursor == 0),
                forall|i: int| primary_index < i < idx
                    && (#[trigger] orig.timeboxes[i]).adjust_policy == crate::dom::AdjustPolicy::Fixed
                    ==> self@.timeboxes[i] == orig.timeboxes[i],
                forall|i: int| primary_index < i < idx
                    && (#[trigger] orig.timeboxes[i]).adjust_policy != crate::dom::AdjustPolicy::Fixed
                    ==> self@.timeboxes[i] == orig.timeboxes[i].spec_adjust(
                        adjust_duration.minutes as int,
                        true,
                    ),
                forall|i: int| idx <= i < orig.timeboxes.len()
                    ==> self@.timeboxes[i] == orig.timeboxes[i],
                forall|i: int| 0 <= i < orig.timeboxes.len()
                    ==> (#[trigger] orig.timeboxes[i]).time_wf(),
            decreases self@.timeboxes.len() - idx,
        {
            let is_fixed = match self.timeboxes[idx].adjust_policy {
                crate::dom::AdjustPolicy::Fixed => true,
                crate::dom::AdjustPolicy::Normal => false,
            };
            if !is_fixed {
                let ghost prev = self@;
                let mut time_box = self.timeboxes[idx].clone();
                proof {
                    assert(time_box@ == orig.timeboxes[idx as int]);
                    assert(orig.timeboxes[idx as int].time_wf());
                }
                time_box.adjust_absolute(adjust_duration, true);
                self.timeboxes[idx] = time_box;
                proof {
                    assert(self@.timeboxes =~= prev.timeboxes.update(
                        idx as int,
                        prev.timeboxes[idx as int].spec_adjust(adjust_duration.minutes as int, true),
                    ));
                }
            }
            idx = idx + 1;
        }
        proof {
            let cascaded = orig.spec_cascade(
                primary_index as int,
                adjust_duration.minutes as int,
                time_cursor == 0,
            );
            assert(self@.timeboxes =~= cascaded.timeboxes);
            assert(self@ =~= cascaded);
        }
    }

    /// Exchanges the boxes on two lines.
    pub fn swap(&mut self, first: usize, second: usize)
        requires
            first < old(self)@.timeboxes.len(),
            second < old(self)@.timeboxes.len(),
        ensures
            final(self)@.timeboxes == old(self)@.timeboxes.update(
                first as int,
                old(self)@.timeboxes[second as int],
            ).update(second as int, old(self)@.timeboxes[first as int]),
            final(self)@ == (ScheduleView { timeboxes: final(self)@.timeboxes, ..old(self)@ }),
    {
        let temp = self.timeboxes[first].clone();
        let other = self.timeboxes[second].clone();
        self.timeboxes[first] = other;
        self.timeboxes[second] = temp;
        proof {
            assert(self@.timeboxes =~= old(self)@.timeboxes.update(
                first as int,
                old(self)@.timeboxes[second as int],
            ).update(second as int, old(self)@.timeboxes[first as int]));
        }
    }
}

} // verus!
