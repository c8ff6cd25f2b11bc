//! Character-level editing of the schedule's activity text.

use crate::cursor::ContentCursor;
use crate::cursor::RenderGeometry;
use crate::cursor::TerminalPos;
use crate::cursor::line_chars;
use crate::cursor::spec_map_to_content;
use crate::cursor::spec_move;
use crate::dom::ActivityView;
use crate::dom::TimeBoxView;
use crate::keys::KeyCode;
use crate::keys::KeyEvent;
use crate::schedule::Schedule;
use crate::text::insert_char_at;
use crate::text::remove_char_at;
use crate::text::spec_utf8_len;
use crate::text::to_uppercase_first;
use crate::text::upper_first_of;
use crate::text::utf8_len;
use vstd::prelude::*;
use vstd::string::StrSliceExecFns;

verus! {

/// The single character a typed character folds to: a one-byte character
/// stands as itself, the two supported accented letters fold to their base
/// letter, and any other multi-byte character is rejected.
pub open spec fn spec_fold_char(c: char) -> Option<char> {
    if spec_utf8_len(c) == 1 {
        Some(c)
    } else if c == '\u{e4}' {
        Some('a')
    } else if c == '\u{f6}' {
        Some('o')
    } else {
        None
    }
}

/// The character an insertion key puts into the text: the folded character,
/// uppercased when shift is held.  `None` where the key inserts nothing.
pub open spec fn spec_effective_char(key: KeyEvent) -> Option<char> {
    match key.code {
        KeyCode::Char(c) => match spec_fold_char(c) {
            Some(c1) => Some(
                if key.modifiers.shift {
                    upper_first_of(c1)
                } else {
                    c1
                },
            ),
            None => None,
        },
        _ => None,
    }
}

/// The line's text after one editing key at character offset `col`.
pub open spec fn spec_edit_text(text: Seq<char>, col: int, key: KeyEvent) -> Seq<char> {
    match key.code {
        KeyCode::Char(_) => match spec_effective_char(key) {
            Some(c) => text.insert(col, c),
            None => text,
        },
        KeyCode::Backspace => if col != 0 {
            text.remove(col - 1)
        } else {
            text
        },
        KeyCode::Delete => if col != text.len() {
            text.remove(col)
        } else {
            text
        },
        _ => text,
    }
}

/// Whether the key changes the text (and a redraw is needed).
pub open spec fn spec_edit_changed(text: Seq<char>, col: int, key: KeyEvent) -> bool {
    match key.code {
        KeyCode::Char(_) => spec_effective_char(key) is Some,
        KeyCode::Backspace => col != 0,
        KeyCode::Delete => col != text.len(),
        _ => false,
    }
}

/// The cursor move the edit asks for: one right after an insertion, one
/// left after a backspace, none otherwise.
pub open spec fn spec_edit_dx(text: Seq<char>, col: int, key: KeyEvent) -> int {
    match key.code {
        KeyCode::Char(_) => if spec_effective_char(key) is Some {
            1int
        } else {
            0int
        },
        KeyCode::Backspace => if col != 0 {
            -1int
        } else {
            0int
        },
        _ => 0int,
    }
}

impl Schedule {
    /// Edits the activity text under the cursor by one key: a character is
    /// inserted at the cursor's offset (then the cursor asks to move
    /// right), backspace removes the character left of it (then the cursor
    /// asks to move left), delete removes the character under it.  Any
    /// other key is a no-op.  Returns whether anything changed and the
    /// terminal position the physical cursor must move to, if any.
    pub fn edit_content(
        &mut self,
        key: &KeyEvent,
        cursor: &mut ContentCursor,
        cur_pos: TerminalPos,
        geom: RenderGeometry,
    ) -> (r: (bool, Option<TerminalPos>))
        requires
            geom.wf_for(old(self)@),
            spec_map_to_content(old(cursor).pos, geom, old(self)@) matches Some(p) && p.col
                <= line_chars(old(self)@, p.line as int).len(),
            key.code matches KeyCode::Char(_) ==> line_chars(
                old(self)@,
                spec_map_to_content(old(cursor).pos, geom, old(self)@).unwrap().line as int,
            ).len() + 1 <= u16::MAX - 23,
        ensures
            ({
                let p = spec_map_to_content(old(cursor).pos, geom, old(self)@).unwrap();
                let text = line_chars(old(self)@, p.line as int);
                let changed = spec_edit_changed(text, p.col as int, *key);
                let dx = spec_edit_dx(text, p.col as int, *key);
                let edited = TimeBoxView {
                    activity: ActivityView {
                        summary: spec_edit_text(text, p.col as int, *key),
                        kind: old(self)@.timeboxes[p.line as int].activity.kind,
                    },
                    ..old(self)@.timeboxes[p.line as int]
                };
                &&& r.0 == changed
                &&& !changed ==> final(self)@ == old(self)@ && r.1 is None && *final(cursor)
                    == *old(cursor)
                &&& changed ==> final(self)@ == old(self)@.with_box(p.line as int, edited)
                    && geom.wf_for(final(self)@)
                &&& changed && dx == 0 ==> r.1 is None && *final(cursor) == *old(cursor)
                &&& dx != 0 ==> r.1 == spec_move(
                    cur_pos,
                    old(cursor).ghost_col(),
                    dx,
                    0,
                    geom,
                    final(self)@,
                )
                &&& dx != 0 ==> (r.1 matches Some(np) ==> final(cursor).pos == np
                    && final(cursor).ghost_col() == np.hpos)
                &&& dx != 0 && r.1 is None ==> *final(cursor) == *old(cursor)
            }),
    {
        let pos = cursor.map_to_content(geom, self);
        let line = pos.line;
        let char_idx = pos.col;

        match key.code {
            // Insert char and move cursor right
            KeyCode::Char(c0) => {
                // Fold hard-to-manage multi-byte characters to a supported
                // single character, rejecting the rest.
                let folded: Option<char> = if utf8_len(c0) != 1 {
                    if c0 == '\u{e4}' {
                        Some('a')
                    } else if c0 == '\u{f6}' {
                        Some('o')
                    } else {
                        None
                    }
                } else {
                    Some(c0)
                };
                match folded {
                    None => (false, None),
                    Some(c1) => {
                        // Make into a capital letter if shift is pressed
                        let c2 = if key.modifiers.shift {
                            to_uppercase_first(c1)
                        } else {
                            c1
                        };
                        let mut edited = self.timeboxes[line].clone();
                        edited.activity.summary = insert_char_at(
                            &edited.activity.summary,
                            char_idx,
                            c2,
                        );
                        self.timeboxes[line] = edited;
                        proof {
                            self.lemma_same_times_keep_geometry(old(self)@, geom, line as int);
                        }
                        let moved = cursor.move_right(cur_pos, self, geom);
                        (true, moved)
                    }
                }
            }
            // Remove the character to the left of cursor, then move left
            KeyCode::Backspace => {
                if char_idx != 0 {
                    let mut edited = self.timeboxes[line].clone();
                    edited.activity.summary = remove_char_at(
                        &edited.activity.summary,
                        char_idx - 1,
                    );
                    self.timeboxes[line] = edited;
                    proof {
                        self.lemma_same_times_keep_geometry(old(self)@, geom, line as int);
                    }
                    let moved = cursor.move_left(cur_pos, self, geom);
                    (true, moved)
                } else {
                    (false, None)
                }
            }
            // Remove the character right of the cursor
            KeyCode::Delete => {
                let line_len = self.timeboxes[line].activity.summary.as_str().unicode_len();
                if char_idx != line_len {
                    let mut edited = self.timeboxes[line].clone();
                    edited.activity.summary = remove_char_at(&edited.activity.summary, char_idx);
                    self.timeboxes[line] = edited;
                    proof {
                        self.lemma_same_times_keep_geometry(old(self)@, geom, line as int);
                    }
                    (true, None)
                } else {
                    (false, None)
                }
            }
            _ => (false, None),
        }
    }

    /// After an edit that touches only one line's text, the render geometry
    /// stays well formed as long as the line still fits the screen.
    proof fn lemma_same_times_keep_geometry(
        &self,
        orig: crate::schedule::ScheduleView,
        geom: RenderGeometry,
        line: int,
    )
        requires
            geom.wf_for(orig),
            self@.timeboxes.len() == orig.timeboxes.len(),
            forall|i: int| 0 <= i < orig.timeboxes.len() ==> (#[trigger] self@.timeboxes[i]).time
                == orig.timeboxes[i].time,
            forall|i: int| 0 <= i < orig.timeboxes.len() && i != line ==> #[trigger] self@.timeboxes[i]
                == orig.timeboxes[i],
            0 <= line < orig.timeboxes.len(),
            self@.timeboxes[line].activity.summary.len() <= u16::MAX - 23,
        ensures
            geom.wf_for(self@),
    {
        assert forall|i: int| 0 <= i < self@.timeboxes.len() implies (#[trigger] self@.timeboxes[i]).time_wf() by {
            assert(orig.timeboxes[i].time_wf());
        }
    }
}

} // verus!
