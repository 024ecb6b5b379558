//! The state machine of a single-line text input: a buffer and a cursor.
//!
//! Rendering and key decoding are a caller concern; this type only holds the
//! edited text and keeps the cursor inside it.

use vstd::prelude::*;
use crate::text;

verus! {

/// A single-line editor: the text being edited, the prompt and help shown
/// with it, and the cursor position in characters.
#[derive(Debug)]
pub struct InputApp {
    pub input: Vec<char>,
    pub prompt: String,
    pub help: Option<String>,
    pub cursor_position: usize,
}

/// The editor's invariant: the cursor sits inside or just after the text.
pub open spec fn cursor_ok(app: InputApp) -> bool {
    app.cursor_position <= app.input.len()
}

impl InputApp {
    /// A fresh editor holding the default text, cursor at its end.
    pub fn new(prompt: &str, default: Option<&str>, help: Option<&str>) -> (r: InputApp)
        ensures
            cursor_ok(r),
            r.input@ == (match default {
                Some(d) => d@,
                None => Seq::<char>::empty(),
            }),
            r.cursor_position == r.input@.len(),
            r.prompt@ == prompt@,
            (match (r.help, help) {
                (Some(h), Some(given)) => h@ == given@,
                (None, None) => true,
                _ => false,
            }),
    {
        let input = match default {
            Some(d) => text::str_to_chars(d),
            None => Vec::new(),
        };
        let cursor_position = input.len();
        InputApp {
            input,
            prompt: String::from_str(prompt),
            help: match help {
                Some(h) => Some(String::from_str(h)),
                None => None,
            },
            cursor_position,
        }
    }

    /// Moves the cursor one character left, stopping at the start.
    pub fn move_cursor_left(&mut self)
        requires
            cursor_ok(*old(self)),
        ensures
            cursor_ok(*final(self)),
            final(self).input == old(self).input,
            final(self).cursor_position == (if old(self).cursor_position > 0 {
                old(self).cursor_position - 1
            } else {
                0int
            }),
    {
        let moved = if self.cursor_position > 0 {
            self.cursor_position - 1
        } else {
            0
        };
        self.cursor_position = self.clamp_cursor(moved);
    }

    /// Moves the cursor one character right, stopping at the end.
    pub fn move_cursor_right(&mut self)
        requires
            cursor_ok(*old(self)),
        ensures
            cursor_ok(*final(self)),
            final(self).input == old(self).input,
            final(self).cursor_position == (if old(self).cursor_position < old(
                self,
            ).input@.len() {
                old(self).cursor_position + 1
            } else {
                old(self).input@.len() as int
            }),
    {
        let moved = if self.cursor_position < usize::MAX {
            self.cursor_position + 1
        } else {
            usize::MAX
        };
        self.cursor_position = self.clamp_cursor(moved);
    }

    /// Inserts a character at the cursor and advances past it.
    pub fn enter_char(&mut self, c: char)
        requires
            cursor_ok(*old(self)),
            old(self).input@.len() < usize::MAX,
        ensures
            cursor_ok(*final(self)),
            final(self).input@ == old(self).input@.insert(old(self).cursor_position as int, c),
            final(self).cursor_position == old(self).cursor_position + 1,
    {
        self.input.insert(self.cursor_position, c);
        self.cursor_position = self.cursor_position + 1;
    }

    /// Deletes the character before the cursor, if any, and moves left.
    pub fn delete_char(&mut self)
        requires
            cursor_ok(*old(self)),
        ensures
            cursor_ok(*final(self)),
            old(self).cursor_position == 0 ==> *final(self) == *old(self),
            old(self).cursor_position > 0 ==> final(self).input@ == old(self).input@.remove(
                old(self).cursor_position - 1,
            ) && final(self).cursor_position == old(self).cursor_position - 1,
    {
        if self.cursor_position > 0 {
            self.input.remove(self.cursor_position - 1);
            self.cursor_position = self.cursor_position - 1;
        }
    }

    /// The nearest position inside the text.
    pub fn clamp_cursor(&self, new_cursor_pos: usize) -> (r: usize)
        ensures
            r == (if new_cursor_pos <= self.input@.len() {
                new_cursor_pos as int
            } else {
                self.input@.len() as int
            }),
    {
        if new_cursor_pos <= self.input.len() {
            new_cursor_pos
        } else {
            self.input.len()
        }
    }

    /// The edited text.
    pub fn text(&self) -> (r: String)
        ensures
            r@ == self.input@,
    {
        text::chars_to_string(&self.input)
    }
}

} // verus!
