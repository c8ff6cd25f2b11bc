//! A reusable text-entry widget: captures key events into a text buffer with
//! a character cursor.

use crate::edit_schedule::spec_effective_char;
use crate::keys::KeyCode;
use crate::keys::KeyEvent;
use crate::text::insert_char_at;
use crate::text::remove_char_at;
use crate::text::to_uppercase_first;
use crate::text::utf8_len;
use vstd::prelude::*;
use vstd::string::StrSliceExecFns;

verus! {

/// Maintains text and a character cursor from the key events passed to it.
#[derive(Debug)]
pub struct TextCapture {
    pub text: String,
    pub cursor: usize,
}

impl TextCapture {
    /// The cursor stays within the text, and the text is short enough for
    /// the cursor distance to fit an `i32`.
    pub open spec fn wf(self) -> bool {
        self.cursor <= self.text@.len() <= 0x7fff_ffff
    }

    /// Creates an empty text capture with its own buffer.
    pub fn owned() -> (r: TextCapture)
        ensures
            r.text@ == Seq::<char>::empty(),
            r.cursor == 0,
            r.wf(),
    {
        TextCapture { text: String::new(), cursor: 0 }
    }

    /// Creates a text capture over existing text, with the cursor at the
    /// given character offset.
    pub fn capture(text: String, char_cursor: usize) -> (r: TextCapture)
        requires
            char_cursor <= text@.len() <= 0x7fff_ffff,
        ensures
            r.text@ == text@,
            r.cursor == char_cursor,
            r.wf(),
    {
        TextCapture { text, cursor: char_cursor }
    }

    /// Resets the whole text, keeping the cursor.
    pub fn set_text(&mut self, text: String)
        requires
            old(self).cursor <= text@.len() <= 0x7fff_ffff,
        ensures
            final(self).text@ == text@,
            final(self).cursor == old(self).cursor,
            final(self).wf(),
    {
        self.text = text;
    }

    /// The captured text.
    pub fn text(&self) -> (r: &String)
        ensures
            r@ == self.text@,
    {
        &self.text
    }

    /// The cursor's character offset, as a terminal column count.
    pub fn cursor(&self) -> (r: u16)
        requires
            self.cursor <= u16::MAX,
        ensures
            r == self.cursor,
    {
        self.cursor as u16
    }

    fn cursor_left(&mut self) -> (moved: bool)
        ensures
            old(self).cursor == 0 ==> !moved && *final(self) == *old(self),
            old(self).cursor > 0 ==> moved && final(self).cursor == old(self).cursor - 1
                && final(self).text == old(self).text,
    {
        // If no characters stand left of the cursor, stay put
        if self.cursor == 0 {
            false
        } else {
            self.cursor = self.cursor - 1;
            true
        }
    }

    fn cursor_right(&mut self) -> (moved: bool)
        requires
            old(self).wf(),
        ensures
            old(self).cursor >= old(self).text@.len() ==> !moved && *final(self) == *old(self),
            old(self).cursor < old(self).text@.len() ==> moved && final(self).cursor == old(
                self,
            ).cursor + 1 && final(self).text == old(self).text,
    {
        if self.cursor >= self.text.as_str().unicode_len() {
            false
        } else {
            self.cursor = self.cursor + 1;
            true
        }
    }

    /// Changes the captured text by one key event.  Returns whether a redraw
    /// is needed and the resulting cursor movement (positive right, negative
    /// left).
    pub fn input(&mut self, key: &KeyEvent) -> (r: (bool, i32))
        requires
            old(self).wf(),
            key.code matches KeyCode::Char(_) ==> old(self).text@.len() < 0x7fff_ffff,
        ensures
            final(self).wf(),
            ({
                let s = spec_capture_input(old(self).text@, old(self).cursor as int, *key);
                &&& final(self).text@ == s.0
                &&& final(self).cursor == s.1
                &&& r.0 == s.2
                &&& r.1 == s.3
            }),
    {
        match key.code {
            // Insert char; the terminal cursor moves right
            KeyCode::Char(c0) => {
                let folded: Option<char> = if utf8_len(c0) != 1 {
                    if c0 == '\u{e4}' {
                        Some('a')
                    } else if c0 == '\u{f6}' {
                        Some('o')
                    } else {
                        // No-op on an unsupported multi-byte character
                        None
                    }
                } else {
                    Some(c0)
                };
                match folded {
                    None => (false, 0),
                    Some(c1) => {
                        // Make into a capital letter if shift is pressed
                        let c2 = if key.modifiers.shift {
                            to_uppercase_first(c1)
                        } else {
                            c1
                        };
                        self.text = insert_char_at(&self.text, self.cursor, c2);
                        (true, 1)
                    }
                }
            }
            // Remove the character left of the cursor, then move left
            KeyCode::Backspace => {
                if self.cursor_left() {
                    self.text = remove_char_at(&self.text, self.cursor);
                    (true, -1)
                } else {
                    (true, 0)
                }
            }
            // Move the cursor to the start of the content
            KeyCode::Home => {
                let left = self.cursor;
                self.cursor = 0;
                (true, -(left as i32))
            }
            // Move the cursor to the end of the content
            KeyCode::End => {
                let len = self.text.as_str().unicode_len();
                let right = len - self.cursor;
                self.cursor = len;
                (true, right as i32)
            }
            // Move up to four to the right
            KeyCode::Tab => {
                let len = self.text.as_str().unicode_len();
                let right = if len - self.cursor >= 4 {
                    4
                } else {
                    len - self.cursor
                };
                self.cursor = self.cursor + right;
                (true, right as i32)
            }
            // Move up to four to the left
            KeyCode::BackTab => {
                let left = if self.cursor >= 4 {
                    4
                } else {
                    self.cursor
                };
                self.cursor = self.cursor - left;
                (true, -(left as i32))
            }
            // Remove the character right of the cursor
            KeyCode::Delete => {
                let len = self.text.as_str().unicode_len();
                if self.cursor != len {
                    self.text = remove_char_at(&self.text, self.cursor);
                }
                (false, 0)
            }
            KeyCode::Left => {
                if self.cursor_left() {
                    (true, -1)
                } else {
                    (false, 0)
                }
            }
            KeyCode::Right => {
                if self.cursor_right() {
                    (true, 1)
                } else {
                    (false, 0)
                }
            }
            _ => (false, 0),
        }
    }
}

/// How one key event transforms captured text: the new text, the new cursor,
/// whether a redraw is needed, and the terminal cursor movement.  An
/// insertion writes at the cursor but leaves the stored cursor in place (the
/// terminal cursor alone moves); backspace and the arrow keys move the
/// stored cursor; home/end/tab jump it (tab by at most four).
pub open spec fn spec_capture_input(text: Seq<char>, cursor: int, key: KeyEvent) -> (
    Seq<char>,
    int,
    bool,
    int,
) {
    let len = text.len() as int;
    match key.code {
        KeyCode::Char(_) => match spec_effective_char(key) {
            Some(c) => (text.insert(cursor, c), cursor, true, 1int),
            None => (text, cursor, false, 0int),
        },
        KeyCode::Backspace => if cursor > 0 {
            (text.remove(cursor - 1), cursor - 1, true, -1int)
        } else {
            (text, cursor, true, 0int)
        },
        KeyCode::Home => (text, 0int, true, -cursor),
        KeyCode::End => (text, len, true, len - cursor),
        KeyCode::Tab => {
            let right = if len - cursor >= 4 {
                4int
            } else {
                len - cursor
            };
            (text, cursor + right, true, right)
        },
        KeyCode::BackTab => {
            let left = if cursor >= 4 {
                4int
            } else {
                cursor
            };
            (text, cursor - left, true, -left)
        },
        KeyCode::Delete => if cursor != len {
            (text.remove(cursor), cursor, false, 0int)
        } else {
            (text, cursor, false, 0int)
        },
        KeyCode::Left => if cursor > 0 {
            (text, cursor - 1, true, -1int)
        } else {
            (text, cursor, false, 0int)
        },
        KeyCode::Right => if cursor < len {
            (text, cursor + 1, true, 1int)
        } else {
            (text, cursor, false, 0int)
        },
        _ => (text, cursor, false, 0int),
    }
}

} // verus!
