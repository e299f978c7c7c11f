//! The authentication form's editing state: a username field and a masked
//! password field sharing one cursor.

use vstd::prelude::*;
use crate::helpers::types::TextInput;

verus! {

/// Which field of the form is being edited.
pub enum AuthActiveInput {
    Username,
    Password,
}

/// The form's fields. `password_input` is the masked text shown on screen;
/// `actual_password_input` holds the characters typed.
pub struct AuthWindowState {
    pub username_input: TextInput,
    pub password_input: TextInput,
    pub actual_password_input: TextInput,
    pub cursor_position: usize,
    pub active_input: AuthActiveInput,
}

/// The values the form submits: the username and the held (unmasked)
/// password.
pub struct AuthInputValues {
    pub username: TextInput,
    pub password: TextInput,
}

/// Typing one character: it lands in the active field at the cursor; in the
/// password field the mask gets a star while the held password gets the
/// character; the cursor moves past it.
pub open spec fn auth_entered_char(pre: AuthWindowState, post: AuthWindowState, c: char) -> bool {
    &&& post.username_input@ == if pre.active_input is Username {
        pre.username_input@.insert(pre.cursor_position as int, c)
    } else {
        pre.username_input@
    }
    &&& post.password_input@ == if pre.active_input is Password {
        pre.password_input@.insert(pre.cursor_position as int, '*')
    } else {
        pre.password_input@
    }
    &&& post.actual_password_input@ == if pre.active_input is Password {
        pre.actual_password_input@.insert(pre.cursor_position as int, c)
    } else {
        pre.actual_password_input@
    }
    &&& post.cursor_position == pre.cursor_position + 1
    &&& post.active_input == pre.active_input
}

/// Deleting before the cursor: the visible active field loses the character
/// and the cursor steps back; with the cursor at the start nothing changes.
/// Deleting edits the visible text only: the held password keeps its
/// characters.
pub open spec fn auth_deleted_char(pre: AuthWindowState, post: AuthWindowState) -> bool {
    if pre.cursor_position == 0 {
        post == pre
    } else {
        &&& post.username_input@ == if pre.active_input is Username {
            pre.username_input@.remove(pre.cursor_position - 1)
        } else {
            pre.username_input@
        }
        &&& post.password_input@ == if pre.active_input is Password {
            pre.password_input@.remove(pre.cursor_position - 1)
        } else {
            pre.password_input@
        }
        &&& post.actual_password_input@ == pre.actual_password_input@
        &&& post.cursor_position == pre.cursor_position - 1
        &&& post.active_input == pre.active_input
    }
}

impl AuthWindowState {
    /// The visible text of the active field.
    pub open spec fn spec_active(self) -> Seq<char> {
        match self.active_input {
            AuthActiveInput::Username => self.username_input@,
            AuthActiveInput::Password => self.password_input@,
        }
    }

    /// The cursor sits inside the active field, and the held password is
    /// never shorter than its mask.
    pub open spec fn wf(self) -> bool {
        &&& self.cursor_position <= self.spec_active().len()
        &&& self.password_input@.len() <= self.actual_password_input@.len()
    }

    /// An empty form, editing the username.
    pub fn new() -> (r: Self)
        ensures
            r.wf(),
            r.username_input@ =~= Seq::<char>::empty(),
            r.password_input@ =~= Seq::<char>::empty(),
            r.actual_password_input@ =~= Seq::<char>::empty(),
            r.cursor_position == 0,
            r.active_input is Username,
    {
        AuthWindowState {
            username_input: Vec::new(),
            password_input: Vec::new(),
            actual_password_input: Vec::new(),
            cursor_position: 0,
            active_input: AuthActiveInput::Username,
        }
    }

    /// Types one character into the active field.
    pub fn enter_char(&mut self, new_char: char)
        requires
            old(self).wf(),
            old(self).spec_active().len() < usize::MAX,
        ensures
            final(self).wf(),
            auth_entered_char(*old(self), *final(self), new_char),
    {
        let cursor_position = self.cursor_position;
        match self.active_input {
            AuthActiveInput::Username => {
                self.username_input.insert(cursor_position, new_char);
            },
            AuthActiveInput::Password => {
                self.actual_password_input.insert(cursor_position, new_char);
                self.password_input.insert(cursor_position, '*');
            },
        }
        self.cursor_position = cursor_position + 1;
    }

    /// Deletes the character before the cursor from the visible active field.
    pub fn delete_char(&mut self)
        requires
            old(self).wf(),
        ensures
            final(self).wf(),
            auth_deleted_char(*old(self), *final(self)),
    {
        if self.cursor_position != 0 {
            let at = self.cursor_position - 1;
            match self.active_input {
                AuthActiveInput::Username => {
                    self.username_input.remove(at);
                },
                AuthActiveInput::Password => {
                    self.password_input.remove(at);
                },
            }
            self.cursor_position = at;
        }
    }

    /// Moves the cursor one step left, stopping at the start.
    pub fn move_cursor_left(&mut self)
        requires
            old(self).wf(),
        ensures
            final(self).wf(),
            final(self).cursor_position == if old(self).cursor_position > 0 {
                old(self).cursor_position - 1
            } else {
                0int
            },
            final(self).username_input == old(self).username_input,
            final(self).password_input == old(self).password_input,
            final(self).actual_password_input == old(self).actual_password_input,
            final(self).active_input == old(self).active_input,
    {
        let moved = if self.cursor_position > 0 {
            self.cursor_position - 1
        } else {
            0
        };
        self.cursor_position = self.clamp_cursor(moved);
    }

    /// Moves the cursor one step right, stopping at the active field's end.
    pub fn move_cursor_right(&mut self)
        requires
            old(self).wf(),
        ensures
            final(self).wf(),
            final(self).cursor_position == if old(self).cursor_position + 1 <= old(
                self,
            ).spec_active().len() {
                old(self).cursor_position + 1
            } else {
                old(self).spec_active().len() as int
            },
            final(self).username_input == old(self).username_input,
            final(self).password_input == old(self).password_input,
            final(self).actual_password_input == old(self).actual_password_input,
            final(self).active_input == old(self).active_input,
    {
        let n = match self.active_input {
            AuthActiveInput::Username => self.username_input.len(),
            AuthActiveInput::Password => self.password_input.len(),
        };
        let moved = if self.cursor_position < n {
            self.cursor_position + 1
        } else {
            self.cursor_position
        };
        self.cursor_position = self.clamp_cursor(moved);
    }

    /// The position clipped to the active field's end.
    pub fn clamp_cursor(&self, new_cursor_pos: usize) -> (r: usize)
        ensures
            r == if new_cursor_pos <= self.spec_active().len() {
                new_cursor_pos as int
            } else {
                self.spec_active().len() as int
            },
    {
        let n = match self.active_input {
            AuthActiveInput::Username => self.username_input.len(),
            AuthActiveInput::Password => self.password_input.len(),
        };
        if new_cursor_pos <= n {
            new_cursor_pos
        } else {
            n
        }
    }

    /// Puts the cursor at the start.
    pub fn reset_cursor(&mut self)
        ensures
            final(self).cursor_position == 0,
            final(self).username_input == old(self).username_input,
            final(self).password_input == old(self).password_input,
            final(self).actual_password_input == old(self).actual_password_input,
            final(self).active_input == old(self).active_input,
    {
        self.cursor_position = 0;
    }

    /// Switches between the username and password fields, putting the cursor
    /// at the end of the newly active field.
    pub fn switch_to_next_input(&mut self)
        requires
            old(self).wf(),
        ensures
            final(self).wf(),
            final(self).active_input == match old(self).active_input {
                AuthActiveInput::Username => AuthActiveInput::Password,
                AuthActiveInput::Password => AuthActiveInput::Username,
            },
            final(self).cursor_position == final(self).spec_active().len(),
            final(self).username_input == old(self).username_input,
            final(self).password_input == old(self).password_input,
            final(self).actual_password_input == old(self).actual_password_input,
    {
        self.active_input = match self.active_input {
            AuthActiveInput::Username => AuthActiveInput::Password,
            AuthActiveInput::Password => AuthActiveInput::Username,
        };
        self.move_cursor_to_eol();
    }

    /// Where the cursor sits.
    pub fn get_cursor_position(&self) -> (r: usize)
        ensures
            r == self.cursor_position,
    {
        self.cursor_position
    }

    /// The values the form submits: the username and the held password.
    pub fn get_input_values(&self) -> (r: AuthInputValues)
        ensures
            r.username@ == self.username_input@,
            r.password@ == self.actual_password_input@,
    {
        AuthInputValues {
            username: clone_chars(&self.username_input),
            password: clone_chars(&self.actual_password_input),
        }
    }

    /// The visible text of the active field.
    pub fn get_active_input(&self) -> (r: &TextInput)
        ensures
            r@ == self.spec_active(),
    {
        match self.active_input {
            AuthActiveInput::Username => &self.username_input,
            AuthActiveInput::Password => &self.password_input,
        }
    }

    /// Puts the cursor at the end of the active field.
    pub fn move_cursor_to_eol(&mut self)
        ensures
            final(self).cursor_position == old(self).spec_active().len(),
            final(self).username_input == old(self).username_input,
            final(self).password_input == old(self).password_input,
            final(self).actual_password_input == old(self).actual_password_input,
            final(self).active_input == old(self).active_input,
    {
        self.cursor_position = match self.active_input {
            AuthActiveInput::Username => self.username_input.len(),
            AuthActiveInput::Password => self.password_input.len(),
        };
    }
}

/// An equal copy of an input line.
pub fn clone_chars(input: &TextInput) -> (r: TextInput)
    ensures
        r@ == input@,
{
    let mut out: Vec<char> = Vec::new();
    for i in 0..input.len()
        invariant
            out@ =~= input@.take(i as int),
    {
        out.push(input[i]);
        proof {
            assert(out@ =~= input@.take(i + 1));
        }
    }
    proof {
        assert(input@.take(input@.len() as int) =~= input@);
    }
    out
}

} // verus!
