//! The login/register window: two tabbed forms with masked password fields
//! sharing one cursor.

use vstd::prelude::*;
use crate::helpers::types::TextInput;
use crate::input::{KeyCode, KeyEvent};
use crate::ui::states::clone_chars;

verus! {

/// Which field is being edited.
pub enum LoginActiveInput {
    Username,
    Password,
    RegisterUsername,
    RegisterPassword,
    RegisterPasswordConfirmation,
}

/// Which form is shown.
pub enum LoginTabs {
    Login,
    Register,
}

/// The window's fields. Each password has a visible masked line and the held
/// characters beside it.
pub struct LoginWindow {
    pub username_input: TextInput,
    pub password_input: TextInput,
    pub login_error_message: String,
    pub register_username_input: TextInput,
    pub register_password_input: TextInput,
    pub register_password_confirmation_input: TextInput,
    pub register_error_message: String,
    pub active_input_field: LoginActiveInput,
    pub active_tab: LoginTabs,
    pub cursor_position: usize,
    pub actual_password_input: TextInput,
    pub actual_register_password_input: TextInput,
    pub actual_register_password_confirmation_input: TextInput,
}

/// The values a form submits; the confirmation only exists on the register
/// tab.
pub struct LoginInputValues {
    pub username: TextInput,
    pub password: TextInput,
    pub password_confirmation: Option<TextInput>,
}

/// Typing one character: it lands in the active field at the cursor; a
/// password field's mask gets a star while the held password gets the
/// character; the cursor moves past it.
pub open spec fn login_entered_char(pre: LoginWindow, post: LoginWindow, c: char) -> bool {
    let at = pre.cursor_position as int;
    &&& post.username_input@ == if pre.active_input_field is Username {
        pre.username_input@.insert(at, c)
    } else {
        pre.username_input@
    }
    &&& post.register_username_input@ == if pre.active_input_field is RegisterUsername {
        pre.register_username_input@.insert(at, c)
    } else {
        pre.register_username_input@
    }
    &&& post.password_input@ == if pre.active_input_field is Password {
        pre.password_input@.insert(at, '*')
    } else {
        pre.password_input@
    }
    &&& post.actual_password_input@ == if pre.active_input_field is Password {
        pre.actual_password_input@.insert(at, c)
    } else {
        pre.actual_password_input@
    }
    &&& post.register_password_input@ == if pre.active_input_field is RegisterPassword {
        pre.register_password_input@.insert(at, '*')
    } else {
        pre.register_password_input@
    }
    &&& post.actual_register_password_input@ == if pre.active_input_field is RegisterPassword {
        pre.actual_register_password_input@.insert(at, c)
    } else {
        pre.actual_register_password_input@
    }
    &&& post.register_password_confirmation_input@ == if pre.active_input_field
        is RegisterPasswordConfirmation {
        pre.register_password_confirmation_input@.insert(at, '*')
    } else {
        pre.register_password_confirmation_input@
    }
    &&& post.actual_register_password_confirmation_input@ == if pre.active_input_field
        is RegisterPasswordConfirmation {
        pre.actual_register_password_confirmation_input@.insert(at, c)
    } else {
        pre.actual_register_password_confirmation_input@
    }
    &&& post.cursor_position == pre.cursor_position + 1
    &&& post.active_input_field == pre.active_input_field
    &&& post.active_tab == pre.active_tab
    &&& post.login_error_message == pre.login_error_message
    &&& post.register_error_message == pre.register_error_message
}

/// Deleting before the cursor: the active field loses the character — a
/// password loses it from the mask and the held characters alike — and the
/// cursor steps back; with the cursor at the start nothing changes.
pub open spec fn login_deleted_char(pre: LoginWindow, post: LoginWindow) -> bool {
    if pre.cursor_position == 0 {
        post == pre
    } else {
        let at = pre.cursor_position - 1;
        &&& post.username_input@ == if pre.active_input_field is Username {
            pre.username_input@.remove(at)
        } else {
            pre.username_input@
        }
        &&& post.register_username_input@ == if pre.active_input_field is RegisterUsername {
            pre.register_username_input@.remove(at)
        } else {
            pre.register_username_input@
        }
        &&& post.password_input@ == if pre.active_input_field is Password {
            pre.password_input@.remove(at)
        } else {
            pre.password_input@
        }
        &&& post.actual_password_input@ == if pre.active_input_field is Password {
            pre.actual_password_input@.remove(at)
        } else {
            pre.actual_password_input@
        }
        &&& post.register_password_input@ == if pre.active_input_field is RegisterPassword {
            pre.register_password_input@.remove(at)
        } else {
            pre.register_password_input@
        }
        &&& post.actual_register_password_input@ == if pre.active_input_field
            is RegisterPassword {
            pre.actual_register_password_input@.remove(at)
        } else {
            pre.actual_register_password_input@
        }
        &&& post.register_password_confirmation_input@ == if pre.active_input_field
            is RegisterPasswordConfirmation {
            pre.register_password_confirmation_input@.remove(at)
        } else {
            pre.register_password_confirmation_input@
        }
        &&& post.actual_register_password_confirmation_input@ == if pre.active_input_field
            is RegisterPasswordConfirmation {
            pre.actual_register_password_confirmation_input@.remove(at)
        } else {
            pre.actual_register_password_confirmation_input@
        }
        &&& post.cursor_position == pre.cursor_position - 1
        &&& post.active_input_field == pre.active_input_field
        &&& post.active_tab == pre.active_tab
        &&& post.login_error_message == pre.login_error_message
        &&& post.register_error_message == pre.register_error_message
    }
}

/// Everything but the cursor and the active-field pointer is unchanged.
pub open spec fn login_fields_unchanged(pre: LoginWindow, post: LoginWindow) -> bool {
    &&& post.username_input == pre.username_input
    &&& post.password_input == pre.password_input
    &&& post.register_username_input == pre.register_username_input
    &&& post.register_password_input == pre.register_password_input
    &&& post.register_password_confirmation_input == pre.register_password_confirmation_input
    &&& post.actual_password_input == pre.actual_password_input
    &&& post.actual_register_password_input == pre.actual_register_password_input
    &&& post.actual_register_password_confirmation_input
        == pre.actual_register_password_confirmation_input
    &&& post.login_error_message == pre.login_error_message
    &&& post.register_error_message == pre.register_error_message
}

/// Tab moves to the next field of the current form, wrapping around, with the
/// cursor at the new field's end.
pub open spec fn login_switched_input(pre: LoginWindow, post: LoginWindow) -> bool {
    &&& login_fields_unchanged(pre, post)
    &&& post.active_tab == pre.active_tab
    &&& post.active_input_field == match pre.active_input_field {
        LoginActiveInput::Username => LoginActiveInput::Password,
        LoginActiveInput::Password => LoginActiveInput::Username,
        LoginActiveInput::RegisterUsername => LoginActiveInput::RegisterPassword,
        LoginActiveInput::RegisterPassword => LoginActiveInput::RegisterPasswordConfirmation,
        LoginActiveInput::RegisterPasswordConfirmation => LoginActiveInput::RegisterUsername,
    }
    &&& post.cursor_position == post.spec_active().len()
}

/// The arrows switch between the login and register forms, landing on the
/// form's username field with the cursor at its end.
pub open spec fn login_switched_tabs(pre: LoginWindow, post: LoginWindow) -> bool {
    &&& login_fields_unchanged(pre, post)
    &&& post.active_tab == match pre.active_tab {
        LoginTabs::Login => LoginTabs::Register,
        LoginTabs::Register => LoginTabs::Login,
    }
    &&& post.active_input_field == match pre.active_tab {
        LoginTabs::Login => LoginActiveInput::RegisterUsername,
        LoginTabs::Register => LoginActiveInput::Username,
    }
    &&& post.cursor_position == post.spec_active().len()
}

/// What one key press does to the window: characters are typed, backspace
/// deletes, the horizontal arrows switch tabs, tab switches fields, and
/// everything else is ignored.
pub open spec fn login_processed_key(pre: LoginWindow, post: LoginWindow, key: KeyEvent) -> bool {
    match key.code {
        KeyCode::Char(c) => login_entered_char(pre, post, c),
        KeyCode::Backspace => login_deleted_char(pre, post),
        KeyCode::Left => login_switched_tabs(pre, post),
        KeyCode::Right => login_switched_tabs(pre, post),
        KeyCode::Tab => login_switched_input(pre, post),
        _ => post == pre,
    }
}

/// The inputs, tab, field pointer and cursor are unchanged; the error texts
/// may differ.
pub open spec fn login_inputs_unchanged(pre: LoginWindow, post: LoginWindow) -> bool {
    &&& post.username_input == pre.username_input
    &&& post.password_input == pre.password_input
    &&& post.register_username_input == pre.register_username_input
    &&& post.register_password_input == pre.register_password_input
    &&& post.register_password_confirmation_input == pre.register_password_confirmation_input
    &&& post.actual_password_input == pre.actual_password_input
    &&& post.actual_register_password_input == pre.actual_register_password_input
    &&& post.actual_register_password_confirmation_input
        == pre.actual_register_password_confirmation_input
    &&& post.active_input_field == pre.active_input_field
    &&& post.active_tab == pre.active_tab
    &&& post.cursor_position == pre.cursor_position
}

impl LoginWindow {
    /// The text the active field edits: the held characters of a password,
    /// the visible text of a username.
    pub open spec fn spec_active(self) -> Seq<char> {
        match self.active_input_field {
            LoginActiveInput::Username => self.username_input@,
            LoginActiveInput::Password => self.actual_password_input@,
            LoginActiveInput::RegisterUsername => self.register_username_input@,
            LoginActiveInput::RegisterPassword => self.actual_register_password_input@,
            LoginActiveInput::RegisterPasswordConfirmation => self.actual_register_password_confirmation_input@,
        }
    }

    /// The cursor sits inside the active field, and each mask is exactly as
    /// long as its held password.
    pub open spec fn wf(self) -> bool {
        &&& self.cursor_position <= self.spec_active().len()
        &&& self.password_input@.len() == self.actual_password_input@.len()
        &&& self.register_password_input@.len() == self.actual_register_password_input@.len()
        &&& self.register_password_confirmation_input@.len()
            == self.actual_register_password_confirmation_input@.len()
    }

    /// An empty window on the login tab, editing the username.
    pub fn new() -> (r: Self)
        ensures
            r.wf(),
            r.active_tab is Login,
            r.active_input_field is Username,
            r.cursor_position == 0,
            r.username_input@ =~= Seq::<char>::empty(),
            r.actual_password_input@ =~= Seq::<char>::empty(),
            r.register_username_input@ =~= Seq::<char>::empty(),
            r.actual_register_password_input@ =~= Seq::<char>::empty(),
            r.actual_register_password_confirmation_input@ =~= Seq::<char>::empty(),
            r.login_error_message@ =~= Seq::<char>::empty(),
            r.register_error_message@ =~= Seq::<char>::empty(),
    {
        LoginWindow {
            username_input: Vec::new(),
            password_input: Vec::new(),
            login_error_message: String::new(),
            register_username_input: Vec::new(),
            register_password_input: Vec::new(),
            register_password_confirmation_input: Vec::new(),
            register_error_message: String::new(),
            active_input_field: LoginActiveInput::Username,
            active_tab: LoginTabs::Login,
            cursor_position: 0,
            actual_password_input: Vec::new(),
            actual_register_password_input: Vec::new(),
            actual_register_password_confirmation_input: Vec::new(),
        }
    }

    /// Routes one key press: characters are typed, backspace deletes, the
    /// arrows switch tabs, tab switches fields; everything else is ignored.
    pub fn process_input(&mut self, key_event: KeyEvent)
        requires
            old(self).wf(),
            old(self).spec_active().len() < usize::MAX,
        ensures
            final(self).wf(),
            login_processed_key(*old(self), *final(self), key_event),
    {
        match key_event.code {
            KeyCode::Char(to_insert) => {
                self.enter_char(to_insert);
            },
            KeyCode::Backspace => {
                self.delete_char();
            },
            KeyCode::Left => {
                self.switch_tabs();
            },
            KeyCode::Right => {
                self.switch_tabs();
            },
            KeyCode::Tab => {
                self.switch_to_next_input();
            },
            _ => {},
        }
    }

    /// Types one character into the active field.
    pub fn enter_char(&mut self, new_char: char)
        requires
            old(self).wf(),
            old(self).spec_active().len() < usize::MAX,
        ensures
            final(self).wf(),
            login_entered_char(*old(self), *final(self), new_char),
    {
        let cursor_position = self.cursor_position;
        match self.active_input_field {
            LoginActiveInput::Username => {
                self.username_input.insert(cursor_position, new_char);
            },
            LoginActiveInput::RegisterUsername => {
                self.register_username_input.insert(cursor_position, new_char);
            },
            LoginActiveInput::Password => {
                self.actual_password_input.insert(cursor_position, new_char);
                self.password_input.insert(cursor_position, '*');
            },
            LoginActiveInput::RegisterPassword => {
                self.actual_register_password_input.insert(cursor_position, new_char);
                self.register_password_input.insert(cursor_position, '*');
            },
            LoginActiveInput::RegisterPasswordConfirmation => {
                self.actual_register_password_confirmation_input.insert(
                    cursor_position,
                    new_char,
                );
                self.register_password_confirmation_input.insert(cursor_position, '*');
            },
        }
        self.cursor_position = cursor_position + 1;
    }

    /// Deletes the character before the cursor from the active field (and
    /// from a password's mask and held characters alike).
    pub fn delete_char(&mut self)
        requires
            old(self).wf(),
        ensures
            final(self).wf(),
            login_deleted_char(*old(self), *final(self)),
    {
        if self.cursor_position != 0 {
            let at = self.cursor_position - 1;
            match self.active_input_field {
                LoginActiveInput::Username => {
                    self.username_input.remove(at);
                },
                LoginActiveInput::RegisterUsername => {
                    self.register_username_input.remove(at);
                },
                LoginActiveInput::Password => {
                    self.actual_password_input.remove(at);
                    self.password_input.remove(at);
                },
                LoginActiveInput::RegisterPassword => {
                    self.actual_register_password_input.remove(at);
                    self.register_password_input.remove(at);
                },
                LoginActiveInput::RegisterPasswordConfirmation => {
                    self.actual_register_password_confirmation_input.remove(at);
                    self.register_password_confirmation_input.remove(at);
                },
            }
            self.cursor_position = at;
        }
    }

    /// Moves the cursor one step left, stopping at the start.
    pub fn move_cursor_left(&mut self)
        requires
            old(self).wf(),
        ensures
            final(self).wf(),
            login_fields_unchanged(*old(self), *final(self)),
            final(self).active_input_field == old(self).active_input_field,
            final(self).active_tab == old(self).active_tab,
            final(self).cursor_position == if old(self).cursor_position > 0 {
                old(self).cursor_position - 1
            } else {
                0int
            },
    {
        let moved = if self.cursor_position > 0 {
            self.cursor_position - 1
        } else {
            0
        };
        self.cursor_position = self.clamp_cursor(moved);
    }

    /// Moves the cursor one step right, stopping at the active field's end.
    pub fn move_cursor_right(&mut self)
        requires
            old(self).wf(),
        ensures
            final(self).wf(),
            login_fields_unchanged(*old(self), *final(self)),
            final(self).active_input_field == old(self).active_input_field,
            final(self).active_tab == old(self).active_tab,
            final(self).cursor_position == if old(self).cursor_position + 1 <= old(
                self,
            ).spec_active().len() {
                old(self).cursor_position + 1
            } else {
                old(self).spec_active().len() as int
            },
    {
        let n = self.active_input_len();
        let moved = if self.cursor_position < n {
            self.cursor_position + 1
        } else {
            self.cursor_position
        };
        self.cursor_position = self.clamp_cursor(moved);
    }

    /// The length of the active field.
    fn active_input_len(&self) -> (r: usize)
        ensures
            r == self.spec_active().len(),
    {
        match self.active_input_field {
            LoginActiveInput::Username => self.username_input.len(),
            LoginActiveInput::Password => self.actual_password_input.len(),
            LoginActiveInput::RegisterUsername => self.register_username_input.len(),
            LoginActiveInput::RegisterPassword => self.actual_register_password_input.len(),
            LoginActiveInput::RegisterPasswordConfirmation => self.actual_register_password_confirmation_input.len(),
        }
    }

    /// The position clipped to the active field's end.
    pub fn clamp_cursor(&self, new_cursor_pos: usize) -> (r: usize)
        ensures
            r == if new_cursor_pos <= self.spec_active().len() {
                new_cursor_pos as int
            } else {
                self.spec_active().len() as int
            },
    {
        let n = self.active_input_len();
        if new_cursor_pos <= n {
            new_cursor_pos
        } else {
            n
        }
    }

    /// Puts the cursor at the start.
    pub fn reset_cursor(&mut self)
        ensures
            login_fields_unchanged(*old(self), *final(self)),
            final(self).active_input_field == old(self).active_input_field,
            final(self).active_tab == old(self).active_tab,
            final(self).cursor_position == 0,
    {
        self.cursor_position = 0;
    }

    /// Moves to the next field of the current form, wrapping around.
    pub fn switch_to_next_input(&mut self)
        requires
            old(self).wf(),
        ensures
            final(self).wf(),
            login_switched_input(*old(self), *final(self)),
    {
        self.active_input_field = match self.active_input_field {
            LoginActiveInput::Username => LoginActiveInput::Password,
            LoginActiveInput::Password => LoginActiveInput::Username,
            LoginActiveInput::RegisterUsername => LoginActiveInput::RegisterPassword,
            LoginActiveInput::RegisterPassword => LoginActiveInput::RegisterPasswordConfirmation,
            LoginActiveInput::RegisterPasswordConfirmation => LoginActiveInput::RegisterUsername,
        };
        self.move_cursor_to_eol();
    }

    /// Switches between the login and register forms.
    pub fn switch_tabs(&mut self)
        requires
            old(self).wf(),
        ensures
            final(self).wf(),
            login_switched_tabs(*old(self), *final(self)),
    {
        match self.active_tab {
            LoginTabs::Login => {
                self.active_tab = LoginTabs::Register;
                self.active_input_field = LoginActiveInput::RegisterUsername;
            },
            LoginTabs::Register => {
                self.active_tab = LoginTabs::Login;
                self.active_input_field = LoginActiveInput::Username;
            },
        }
        self.move_cursor_to_eol();
    }

    /// Where the cursor sits.
    pub fn get_cursor_position(&self) -> (r: usize)
        ensures
            r == self.cursor_position,
    {
        self.cursor_position
    }

    /// The values the current form submits: username, held password, and on
    /// the register tab the held confirmation.
    pub fn get_input_values(&self) -> (r: LoginInputValues)
        ensures
            self.active_tab is Login ==> r.username@ == self.username_input@ && r.password@
                == self.actual_password_input@ && r.password_confirmation is None,
            self.active_tab is Register ==> r.username@ == self.register_username_input@
                && r.password@ == self.actual_register_password_input@ && (
            r.password_confirmation matches Some(pc) && pc@
                == self.actual_register_password_confirmation_input@),
    {
        match self.active_tab {
            LoginTabs::Login => LoginInputValues {
                username: clone_chars(&self.username_input),
                password: clone_chars(&self.actual_password_input),
                password_confirmation: None,
            },
            LoginTabs::Register => LoginInputValues {
                username: clone_chars(&self.register_username_input),
                password: clone_chars(&self.actual_register_password_input),
                password_confirmation: Some(
                    clone_chars(&self.actual_register_password_confirmation_input),
                ),
            },
        }
    }

    /// The text the active field edits.
    pub fn get_active_input(&self) -> (r: TextInput)
        ensures
            r@ == self.spec_active(),
    {
        match self.active_input_field {
            LoginActiveInput::Username => clone_chars(&self.username_input),
            LoginActiveInput::Password => clone_chars(&self.actual_password_input),
            LoginActiveInput::RegisterUsername => clone_chars(&self.register_username_input),
            LoginActiveInput::RegisterPassword => clone_chars(
                &self.actual_register_password_input,
            ),
            LoginActiveInput::RegisterPasswordConfirmation => clone_chars(
                &self.actual_register_password_confirmation_input,
            ),
        }
    }

    /// Puts the cursor at the end of the active field.
    pub fn move_cursor_to_eol(&mut self)
        ensures
            login_fields_unchanged(*old(self), *final(self)),
            final(self).active_input_field == old(self).active_input_field,
            final(self).active_tab == old(self).active_tab,
            final(self).cursor_position == final(self).spec_active().len(),
    {
        self.cursor_position = self.active_input_len();
    }
}

} // verus!
