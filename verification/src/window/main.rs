//! The main window: the chat manager plus the search and message inputs, and
//! the router that turns key presses into state changes.

use vstd::prelude::*;
use crate::chat::manager::ChatManager;
use crate::chat::Chat;
use crate::helpers::input_to_string;
use crate::helpers::list::{wrap_next, wrap_prev};
use crate::helpers::types::TextInput;
use crate::input::{KeyCode, KeyEvent};
use crate::ui::states::clone_chars;

verus! {

/// Which part of the main window consumes typed input.
#[derive(Clone, Copy)]
pub enum ActiveInputEntity {
    SearchChats,
    SelectChat,
    EnterMessage,
}

impl Default for ActiveInputEntity {
    /// The window starts in the search field.
    fn default() -> (r: Self)
        ensures
            r is SearchChats,
    {
        ActiveInputEntity::SearchChats
    }
}

/// The main window's state.
pub struct MainWindow {
    pub chat_manager: ChatManager,
    pub search_input: TextInput,
    pub message_input: TextInput,
    pub active_input_entity: ActiveInputEntity,
    pub cursor_position: usize,
}

/// Typing one character into the active input: it lands at the cursor and the
/// cursor moves past it.
pub open spec fn main_entered_char(pre: MainWindow, post: MainWindow, c: char) -> bool {
    let at = pre.cursor_position as int;
    &&& post.search_input@ == if pre.active_input_entity is SearchChats {
        pre.search_input@.insert(at, c)
    } else {
        pre.search_input@
    }
    &&& post.message_input@ == if pre.active_input_entity is EnterMessage {
        pre.message_input@.insert(at, c)
    } else {
        pre.message_input@
    }
    &&& post.cursor_position == pre.cursor_position + 1
    &&& post.active_input_entity == pre.active_input_entity
    &&& post.chat_manager == pre.chat_manager
}

/// Deleting before the cursor from the active input; with the cursor at the
/// start nothing changes.
pub open spec fn main_deleted_char(pre: MainWindow, post: MainWindow) -> bool {
    if pre.cursor_position == 0 {
        post == pre
    } else {
        let at = pre.cursor_position - 1;
        &&& post.search_input@ == if pre.active_input_entity is SearchChats {
            pre.search_input@.remove(at)
        } else {
            pre.search_input@
        }
        &&& post.message_input@ == if pre.active_input_entity is EnterMessage {
            pre.message_input@.remove(at)
        } else {
            pre.message_input@
        }
        &&& post.cursor_position == pre.cursor_position - 1
        &&& post.active_input_entity == pre.active_input_entity
        &&& post.chat_manager == pre.chat_manager
    }
}

/// The selection of the active collection moved one step, everything else as
/// it was.
pub open spec fn moved_selection(pre: ChatManager, post: ChatManager, up: bool) -> bool {
    &&& post.chats.items@ == pre.chats.items@
    &&& post.search_results.items@ == pre.search_results.items@
    &&& post.messages@ == pre.messages@
    &&& post.loaded_internal_chat_id == pre.loaded_internal_chat_id
    &&& pre.active_items().len() > 0 ==> ({
        let list = if pre.searching() {
            pre.search_results
        } else {
            pre.chats
        };
        let updated = if pre.searching() {
            post.search_results
        } else {
            post.chats
        };
        updated.spec_cursor() == Some(
            if up {
                wrap_prev(list.spec_cursor(), list.items@.len() as int)
            } else {
                wrap_next(list.spec_cursor(), list.items@.len() as int)
            },
        )
    })
}

/// What one key press does to the window: characters and edits go to the
/// active input, the vertical arrows navigate the chat list, and escape
/// backs out one level.
pub open spec fn main_processed_key(pre: MainWindow, post: MainWindow, key: KeyEvent) -> bool {
    match key.code {
        KeyCode::Char(c) => if pre.active_input_entity is SelectChat {
            post == pre
        } else {
            main_entered_char(pre, post, c)
        },
        KeyCode::Backspace => if pre.active_input_entity is SelectChat {
            post == pre
        } else {
            main_deleted_char(pre, post)
        },
        KeyCode::Left => if pre.active_input_entity is SelectChat {
            post == pre
        } else {
            post.search_input == pre.search_input && post.message_input == pre.message_input && post.chat_manager == pre.chat_manager && post.active_input_entity == pre.active_input_entity && post.cursor_position == if pre.cursor_position > 0 {
                pre.cursor_position - 1
            } else {
                0int
            }
        },
        KeyCode::Right => if pre.active_input_entity is SelectChat {
            post == pre
        } else {
            post.search_input == pre.search_input && post.message_input == pre.message_input && post.chat_manager == pre.chat_manager && post.active_input_entity == pre.active_input_entity && post.cursor_position == if pre.cursor_position + 1 <= pre.spec_active().len() {
                pre.cursor_position + 1
            } else {
                pre.spec_active().len() as int
            }
        },
        KeyCode::Up => if pre.active_input_entity is EnterMessage {
            post == pre
        } else {
            post.search_input == pre.search_input && post.message_input == pre.message_input && post.active_input_entity
                is SelectChat && post.cursor_position == pre.cursor_position
                && moved_selection(pre.chat_manager, post.chat_manager, true)
        },
        KeyCode::Down => if pre.active_input_entity is EnterMessage {
            post == pre
        } else {
            post.search_input == pre.search_input && post.message_input == pre.message_input && post.active_input_entity
                is SelectChat && post.cursor_position == pre.cursor_position
                && moved_selection(pre.chat_manager, post.chat_manager, false)
        },
        KeyCode::Esc => match pre.active_input_entity {
            ActiveInputEntity::EnterMessage => post.search_input == pre.search_input && post.message_input@ =~= Seq::<char>::empty() && post.active_input_entity is SelectChat && post.chat_manager.loaded_internal_chat_id is None && post.chat_manager.chats == pre.chat_manager.chats && post.chat_manager.search_results == pre.chat_manager.search_results && post.chat_manager.messages@ == pre.chat_manager.messages@,
            ActiveInputEntity::SelectChat => post.search_input == pre.search_input && post.message_input == pre.message_input && post.active_input_entity is SearchChats && post.cursor_position == post.search_input@.len() && post.chat_manager.chats.items@ == pre.chat_manager.chats.items@ && post.chat_manager.search_results.items@
                == pre.chat_manager.search_results.items@ && post.chat_manager.messages@ == pre.chat_manager.messages@ && post.chat_manager.loaded_internal_chat_id == pre.chat_manager.loaded_internal_chat_id,
            ActiveInputEntity::SearchChats => post.search_input@ =~= Seq::<
                char,
            >::empty() && post.message_input == pre.message_input && post.active_input_entity is SearchChats && post.cursor_position == 0
                && post.chat_manager.chats == pre.chat_manager.chats && post.chat_manager.search_results.items@ =~= Seq::<Chat>::empty() && post.chat_manager.messages@ == pre.chat_manager.messages@ && post.chat_manager.loaded_internal_chat_id == pre.chat_manager.loaded_internal_chat_id,
        },
        _ => post == pre,
    }
}

impl MainWindow {
    /// The text of the input the window is editing; empty while navigating the
    /// chat list.
    pub open spec fn spec_active(self) -> Seq<char> {
        match self.active_input_entity {
            ActiveInputEntity::SearchChats => self.search_input@,
            ActiveInputEntity::EnterMessage => self.message_input@,
            ActiveInputEntity::SelectChat => Seq::empty(),
        }
    }

    /// The manager is consistent and, while an input is being edited, the
    /// cursor sits inside it.
    pub open spec fn wf(self) -> bool {
        &&& self.chat_manager.wf()
        &&& !(self.active_input_entity is SelectChat) ==> self.cursor_position
            <= self.spec_active().len()
    }

    /// A window over this manager, starting in the empty search field.
    pub fn new(chat_manager: ChatManager) -> (r: Self)
        requires
            chat_manager.wf(),
        ensures
            r.wf(),
            r.chat_manager == chat_manager,
            r.search_input@ =~= Seq::<char>::empty(),
            r.message_input@ =~= Seq::<char>::empty(),
            r.active_input_entity is SearchChats,
            r.cursor_position == 0,
    {
        MainWindow {
            chat_manager,
            search_input: Vec::new(),
            message_input: Vec::new(),
            active_input_entity: ActiveInputEntity::SearchChats,
            cursor_position: 0,
        }
    }

    /// Where the cursor sits.
    pub fn get_cursor_position(&self) -> (r: usize)
        ensures
            r == self.cursor_position,
    {
        self.cursor_position
    }

    /// The text of the input the window is editing.
    pub fn get_active_input(&self) -> (r: String)
        requires
            !(self.active_input_entity is SelectChat),
        ensures
            r@ == self.spec_active(),
    {
        match self.active_input_entity {
            ActiveInputEntity::SearchChats => input_to_string(&self.search_input),
            ActiveInputEntity::EnterMessage => input_to_string(&self.message_input),
            ActiveInputEntity::SelectChat => String::new(),
        }
    }

    /// Which part of the window consumes typed input.
    pub fn get_active_input_entity(&self) -> (r: ActiveInputEntity)
        ensures
            r == self.active_input_entity,
    {
        self.active_input_entity
    }

    /// The search line as typed.
    pub fn get_search_input(&self) -> (r: TextInput)
        ensures
            r@ == self.search_input@,
    {
        clone_chars(&self.search_input)
    }

    /// The message line as typed.
    pub fn get_message(&self) -> (r: TextInput)
        ensures
            r@ == self.message_input@,
    {
        clone_chars(&self.message_input)
    }

    /// Takes the message line, leaving it empty with the cursor at the end of
    /// whatever input is active.
    pub fn pop_message_input(&mut self) -> (r: TextInput)
        requires
            old(self).wf(),
            !(old(self).active_input_entity is SelectChat),
        ensures
            final(self).wf(),
            r@ == old(self).message_input@,
            final(self).message_input@ =~= Seq::<char>::empty(),
            final(self).search_input == old(self).search_input,
            final(self).chat_manager == old(self).chat_manager,
            final(self).active_input_entity == old(self).active_input_entity,
            final(self).cursor_position == final(self).spec_active().len(),
    {
        let message = clone_chars(&self.message_input);
        self.message_input.clear();
        self.reset_cursor();
        message
    }

    /// Hands input to this part of the window; entering an editable input
    /// puts the cursor at its end.
    pub fn set_active_input_entity(&mut self, active_input_entity: ActiveInputEntity)
        requires
            old(self).wf(),
        ensures
            final(self).wf(),
            final(self).active_input_entity == active_input_entity,
            final(self).search_input == old(self).search_input,
            final(self).message_input == old(self).message_input,
            final(self).chat_manager == old(self).chat_manager,
            final(self).cursor_position == if active_input_entity is SelectChat {
                old(self).cursor_position as int
            } else {
                final(self).spec_active().len() as int
            },
    {
        let select = match active_input_entity {
            ActiveInputEntity::SelectChat => true,
            _ => false,
        };
        self.active_input_entity = active_input_entity;
        if !select {
            self.reset_cursor();
        }
    }

    /// Empties the search line and puts the cursor at the active input's end.
    pub fn clear_search(&mut self)
        requires
            old(self).wf(),
            !(old(self).active_input_entity is SelectChat),
        ensures
            final(self).wf(),
            final(self).search_input@ =~= Seq::<char>::empty(),
            final(self).message_input == old(self).message_input,
            final(self).chat_manager == old(self).chat_manager,
            final(self).active_input_entity == old(self).active_input_entity,
            final(self).cursor_position == final(self).spec_active().len(),
    {
        self.search_input.clear();
        self.reset_cursor();
    }

    /// Routes one key press: characters and edits go to the active input, the
    /// vertical arrows navigate the chat list, and escape backs out one level
    /// (message entry, then selection, then the search overlay).
    pub fn process_input(&mut self, key_event: KeyEvent)
        requires
            old(self).wf(),
            old(self).spec_active().len() < usize::MAX,
        ensures
            final(self).wf(),
            main_processed_key(*old(self), *final(self), key_event),
    {
        match key_event.code {
            KeyCode::Char(to_insert) => {
                match self.active_input_entity {
                    ActiveInputEntity::SelectChat => {},
                    _ => {
                        self.enter_char(to_insert);
                    },
                }
            },
            KeyCode::Backspace => {
                match self.active_input_entity {
                    ActiveInputEntity::SelectChat => {},
                    _ => {
                        self.delete_char();
                    },
                }
            },
            KeyCode::Left => {
                match self.active_input_entity {
                    ActiveInputEntity::SelectChat => {},
                    _ => {
                        self.move_cursor_left();
                    },
                }
            },
            KeyCode::Right => {
                match self.active_input_entity {
                    ActiveInputEntity::SelectChat => {},
                    _ => {
                        self.move_cursor_right();
                    },
                }
            },
            KeyCode::Up => {
                match self.active_input_entity {
                    ActiveInputEntity::EnterMessage => {},
                    _ => {
                        self.active_input_entity = ActiveInputEntity::SelectChat;
                        self.chat_manager.select_previous_chat();
                    },
                }
            },
            KeyCode::Down => {
                match self.active_input_entity {
                    ActiveInputEntity::EnterMessage => {},
                    _ => {
                        self.active_input_entity = ActiveInputEntity::SelectChat;
                        self.chat_manager.select_next_chat();
                    },
                }
            },
            KeyCode::Esc => {
                match self.active_input_entity {
                    ActiveInputEntity::EnterMessage => {
                        self.chat_manager.unload_chat();
                        self.message_input.clear();
                        self.active_input_entity = ActiveInputEntity::SelectChat;
                    },
                    ActiveInputEntity::SelectChat => {
                        self.chat_manager.unselect_chat();
                        self.active_input_entity = ActiveInputEntity::SearchChats;
                        self.reset_cursor();
                    },
                    ActiveInputEntity::SearchChats => {
                        self.chat_manager.clear_search_results();
                        self.search_input.clear();
                        self.reset_cursor();
                    },
                }
            },
            _ => {},
        }
    }

    /// Types one character into the active input.
    pub fn enter_char(&mut self, new_char: char)
        requires
            old(self).wf(),
            !(old(self).active_input_entity is SelectChat),
            old(self).spec_active().len() < usize::MAX,
        ensures
            final(self).wf(),
            main_entered_char(*old(self), *final(self), new_char),
    {
        let cursor_position = self.cursor_position;
        match self.active_input_entity {
            ActiveInputEntity::SearchChats => {
                self.search_input.insert(cursor_position, new_char);
            },
            ActiveInputEntity::EnterMessage => {
                self.message_input.insert(cursor_position, new_char);
            },
            ActiveInputEntity::SelectChat => {},
        }
        self.cursor_position = cursor_position + 1;
    }

    /// Deletes the character before the cursor from the active input.
    pub fn delete_char(&mut self)
        requires
            old(self).wf(),
            !(old(self).active_input_entity is SelectChat),
        ensures
            final(self).wf(),
            main_deleted_char(*old(self), *final(self)),
    {
        if self.cursor_position != 0 {
            let at = self.cursor_position - 1;
            match self.active_input_entity {
                ActiveInputEntity::SearchChats => {
                    self.search_input.remove(at);
                },
                ActiveInputEntity::EnterMessage => {
                    self.message_input.remove(at);
                },
                ActiveInputEntity::SelectChat => {},
            }
            self.cursor_position = at;
        }
    }

    /// Moves the cursor one step left, stopping at the start.
    pub fn move_cursor_left(&mut self)
        requires
            old(self).wf(),
            !(old(self).active_input_entity is SelectChat),
        ensures
            final(self).wf(),
            final(self).search_input == old(self).search_input,
            final(self).message_input == old(self).message_input,
            final(self).chat_manager == old(self).chat_manager,
            final(self).active_input_entity == old(self).active_input_entity,
            final(self).cursor_position == if old(self).cursor_position > 0 {
                old(self).cursor_position - 1
            } else {
                0int
            },
    {
        let moved = if self.cursor_position > 0 {
            self.cursor_position - 1
        } else {
            0
        };
        self.cursor_position = self.clamp_cursor(moved);
    }

    /// Moves the cursor one step right, stopping at the active input's end.
    pub fn move_cursor_right(&mut self)
        requires
            old(self).wf(),
            !(old(self).active_input_entity is SelectChat),
        ensures
            final(self).wf(),
            final(self).search_input == old(self).search_input,
            final(self).message_input == old(self).message_input,
            final(self).chat_manager == old(self).chat_manager,
            final(self).active_input_entity == old(self).active_input_entity,
            final(self).cursor_position == if old(self).cursor_position + 1 <= old(self).spec_active().len() {
                old(self).cursor_position + 1
            } else {
                old(self).spec_active().len() as int
            },
    {
        let n = self.active_input_len();
        let moved = if self.cursor_position < n {
            self.cursor_position + 1
        } else {
            self.cursor_position
        };
        self.cursor_position = self.clamp_cursor(moved);
    }

    /// The length of the active input.
    fn active_input_len(&self) -> (r: usize)
        ensures
            r == self.spec_active().len(),
    {
        match self.active_input_entity {
            ActiveInputEntity::SearchChats => self.search_input.len(),
            ActiveInputEntity::EnterMessage => self.message_input.len(),
            ActiveInputEntity::SelectChat => 0,
        }
    }

    /// The position clipped to the active input's end.
    pub fn clamp_cursor(&self, new_cursor_pos: usize) -> (r: usize)
        ensures
            r == if new_cursor_pos <= self.spec_active().len() {
                new_cursor_pos as int
            } else {
                self.spec_active().len() as int
            },
    {
        let n = self.active_input_len();
        if new_cursor_pos <= n {
            new_cursor_pos
        } else {
            n
        }
    }

    /// Puts the cursor at the end of the active input.
    pub fn reset_cursor(&mut self)
        ensures
            final(self).search_input == old(self).search_input,
            final(self).message_input == old(self).message_input,
            final(self).chat_manager == old(self).chat_manager,
            final(self).active_input_entity == old(self).active_input_entity,
            final(self).cursor_position == final(self).spec_active().len(),
    {
        self.cursor_position = self.active_input_len();
    }

    /// The main window has no next input.
    pub fn switch_to_next_input(&mut self)
        ensures
            *final(self) == *old(self),
    {
    }

    /// The main window has no tabs.
    pub fn switch_tabs(&mut self)
        ensures
            *final(self) == *old(self),
    {
    }
}

} // verus!
