//! The search field: an editable line with a cursor.

use vstd::prelude::*;
use crate::helpers::types::TextInput;
use crate::input::{KeyCode, KeyEvent};

verus! {

/// An editable search line. The cursor never passes the end of the input.
pub struct SearchInputEntity {
    pub input: TextInput,
    pub cursor_position: usize,
}

impl SearchInputEntity {
    /// The cursor sits inside the input.
    pub open spec fn wf(self) -> bool {
        self.cursor_position <= self.input@.len()
    }

    /// An empty field with the cursor at the start.
    pub fn new() -> (r: Self)
        ensures
            r.wf(),
            r.input@ =~= Seq::<char>::empty(),
            r.cursor_position == 0,
    {
        SearchInputEntity { input: Vec::new(), cursor_position: 0 }
    }

    /// Where the cursor sits.
    pub fn get_cursor_position(&self) -> (r: usize)
        ensures
            r == self.cursor_position,
    {
        self.cursor_position
    }

    /// Routes one key press: characters are inserted at the cursor, backspace
    /// deletes before it, the arrows move it; everything else is ignored.
    pub fn process_input(&mut self, key_event: KeyEvent)
        requires
            old(self).wf(),
            old(self).input@.len() < usize::MAX,
        ensures
            final(self).wf(),
            match key_event.code {
                KeyCode::Char(c) => final(self).input@ == old(self).input@.insert(
                    old(self).cursor_position as int,
                    c,
                ) && final(self).cursor_position == old(self).cursor_position + 1,
                KeyCode::Backspace => if old(self).cursor_position > 0 {
                    final(self).input@ == old(self).input@.remove(
                        old(self).cursor_position - 1,
                    ) && final(self).cursor_position == old(self).cursor_position - 1
                } else {
                    *final(self) == *old(self)
                },
                KeyCode::Left => final(self).input@ == old(self).input@ && final(self).cursor_position == if old(self).cursor_position > 0 {
                    old(self).cursor_position - 1
                } else {
                    0int
                },
                KeyCode::Right => final(self).input@ == old(self).input@ && final(self).cursor_position == if old(self).cursor_position + 1 <= old(self).input@.len() {
                    old(self).cursor_position + 1
                } else {
                    old(self).input@.len() as int
                },
                _ => *final(self) == *old(self),
            },
    {
        match key_event.code {
            KeyCode::Char(to_insert) => {
                self.enter_char(to_insert);
            },
            KeyCode::Backspace => {
                self.delete_char();
            },
            KeyCode::Left => {
                self.move_cursor_left();
            },
            KeyCode::Right => {
                self.move_cursor_right();
            },
            _ => {},
        }
    }

    /// Inserts the character at the cursor and moves the cursor past it.
    pub fn enter_char(&mut self, new_char: char)
        requires
            old(self).wf(),
            old(self).input@.len() < usize::MAX,
        ensures
            final(self).wf(),
            final(self).input@ == old(self).input@.insert(old(self).cursor_position as int, new_char),
            final(self).cursor_position == old(self).cursor_position + 1,
    {
        self.input.insert(self.cursor_position, new_char);
        self.move_cursor_right();
    }

    /// Deletes the character before the cursor, if any, and moves the cursor
    /// back.
    pub fn delete_char(&mut self)
        requires
            old(self).wf(),
        ensures
            final(self).wf(),
            old(self).cursor_position > 0 ==> final(self).input@ == old(self).input@.remove(
                old(self).cursor_position - 1,
            ) && final(self).cursor_position == old(self).cursor_position - 1,
            old(self).cursor_position == 0 ==> *final(self) == *old(self),
    {
        let is_not_cursor_leftmost = self.cursor_position != 0;
        if is_not_cursor_leftmost {
            self.input.remove(self.cursor_position - 1);
            self.cursor_position = self.cursor_position - 1;
        }
    }

    /// Moves the cursor one step left, stopping at the start.
    pub fn move_cursor_left(&mut self)
        requires
            old(self).wf(),
        ensures
            final(self).wf(),
            final(self).input == old(self).input,
            final(self).cursor_position == if old(self).cursor_position > 0 {
                old(self).cursor_position - 1
            } else {
                0int
            },
    {
        let cursor_moved_left = if self.cursor_position > 0 {
            self.cursor_position - 1
        } else {
            0
        };
        self.cursor_position = self.clamp_cursor(cursor_moved_left);
    }

    /// Moves the cursor one step right, stopping at the end.
    pub fn move_cursor_right(&mut self)
        requires
            old(self).wf(),
        ensures
            final(self).wf(),
            final(self).input == old(self).input,
            final(self).cursor_position == if old(self).cursor_position + 1 <= old(self).input@.len() {
                old(self).cursor_position + 1
            } else {
                old(self).input@.len() as int
            },
    {
        let n = self.input.len();
        let cursor_moved_right = if self.cursor_position < n {
            self.cursor_position + 1
        } else {
            self.cursor_position
        };
        self.cursor_position = self.clamp_cursor(cursor_moved_right);
    }

    /// The position clipped to the input's end.
    pub fn clamp_cursor(&self, new_cursor_pos: usize) -> (r: usize)
        ensures
            r == if new_cursor_pos <= self.input@.len() {
                new_cursor_pos as int
            } else {
                self.input@.len() as int
            },
    {
        if new_cursor_pos <= self.input.len() {
            new_cursor_pos
        } else {
            self.input.len()
        }
    }

    /// Puts the cursor at the start.
    pub fn reset_cursor(&mut self)
        ensures
            final(self).input == old(self).input,
            final(self).cursor_position == 0,
    {
        self.cursor_position = 0;
    }

    /// The search field is the only input of its window.
    pub fn switch_to_next_input(&mut self)
        ensures
            *final(self) == *old(self),
    {
    }

    /// The search field has no tabs.
    pub fn switch_tabs(&mut self)
        ensures
            *final(self) == *old(self),
    {
    }
}

} // verus!
