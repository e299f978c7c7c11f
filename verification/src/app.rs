//! The application core: the window states, the session client, and the
//! decisions that turn user actions into network plans.
//!
//! Everything here is a function from the current state (and plain values the
//! I/O layer hands back) to the next state and a plan; the I/O layer performs
//! the plans.

use vstd::prelude::*;
use crate::api::{auth_body_ok, spec_is_success, tokens_are, ApiError, BodySummary, Client};
use crate::chat::builder::{
    nameable, sat32, spec_build_chat, spec_build_message, ChatBuilder,
};
use crate::chat::manager::{server_keyed, with_message_buffers, ChatManager};
use crate::chat::{Chat, Message};
use crate::helpers::digits::{lemma_spec_dec_injective, spec_dec, u32_to_dec_string};
use crate::helpers::list::{
    has_id, id_index, lemma_sort_ranked_has_id, sort_ranked, sorted_by_rank,
};
use crate::helpers::types::{ChatId, TextInput};
use crate::helpers::{equal_char_vecs, input_to_string};
use crate::input::KeyEvent;
use crate::schemas::{ChatModel, MessageModel, MessageModelView, NewChatModel, NewMessage, User};
use crate::window::login::{
    login_inputs_unchanged, login_processed_key, LoginInputValues, LoginTabs, LoginWindow,
};
use crate::window::main::{main_processed_key, ActiveInputEntity, MainWindow};

verus! {

/// Which window receives input.
pub enum Windows {
    Login,
    Main,
}

/// The application's state: the two windows, the session client, the chat
/// builder, and the signed-in user.
pub struct App {
    pub login_window: LoginWindow,
    pub main_window: MainWindow,
    pub active_window: Windows,
    pub api_client: Client,
    pub chat_builder: ChatBuilder,
    pub should_quit: bool,
    pub user: Option<User>,
}

/// What one submit keystroke asks the I/O layer to do.
pub enum SubmitPlan {
    /// Post these credentials to the login endpoint.
    LoginAttempt(String, String),
    /// The login form was incomplete; the error text is set on the window.
    LoginRejected,
    /// Post these credentials to the register endpoint.
    RegisterAttempt(String, String),
    /// The register form was invalid; the error text is set on the window.
    RegisterRejected,
    /// Search the directory for this name.
    Search(String),
    /// The search line is empty: drop the search overlay.
    ClearSearch,
    /// Open this chat.
    OpenChat(Chat),
    /// Send this message over the real-time channel.
    SendMessage(NewMessage),
    /// Ask the server to create this chat.
    CreateChat(NewChatModel),
    /// The message line was empty: nothing to do.
    NoMessage,
}

/// How an accepted chat is opened: under which stable key, whether the search
/// overlay is bypassed, which server chat is marked read, and which key is
/// selected after the overlay is dropped.
pub struct OpenChatPlan {
    pub target_internal_id: String,
    pub specifically: bool,
    pub mark_read: Option<ChatId>,
    pub select_after: Option<String>,
}

/// The first primary-list position carrying this name.
pub open spec fn first_name_index(s: Seq<Chat>, name: Seq<char>) -> int {
    choose|i: int|
        0 <= i < s.len() && (#[trigger] s[i])@.name == name && (forall|j: int|
            0 <= j < i ==> (#[trigger] s[j])@.name != name)
}

/// Whether some chat carries this name.
pub open spec fn any_named(s: Seq<Chat>, name: Seq<char>) -> bool {
    exists|i: int| 0 <= i < s.len() && (#[trigger] s[i])@.name == name
}

/// The first position with a name is the unique minimal one.
pub proof fn lemma_first_name_unique(s: Seq<Chat>, name: Seq<char>, i: int)
    requires
        0 <= i < s.len(),
        s[i]@.name == name,
        forall|j: int| 0 <= j < i ==> (#[trigger] s[j])@.name != name,
    ensures
        first_name_index(s, name) == i,
        any_named(s, name),
{
    let w = first_name_index(s, name);
    assert(0 <= w < s.len() && s[w]@.name == name && (forall|j: int|
        0 <= j < w ==> (#[trigger] s[j])@.name != name));
    if w < i {
        assert(s[w]@.name != name);
    }
    if i < w {
        assert(s[i]@.name != name);
    }
}

/// What the register form must satisfy: matching passwords, a password of at
/// least eight characters, a username of at least three. The first violated
/// rule's message is returned.
pub fn validate_register_input(values: &LoginInputValues) -> (r: Option<String>)
    requires
        values.password_confirmation is Some,
    ensures
        match r {
            Some(e) => if values.password@ != values.password_confirmation.unwrap()@ {
                e@ == "Passwords do not match.\n"@
            } else if values.password@.len() < 8 {
                e@ == "Password must be at least 8 characters long.\n"@
            } else {
                values.username@.len() < 3 && e@
                    == "Username must be at least 3 characters long.\n"@
            },
            None => values.password@ == values.password_confirmation.unwrap()@
                && values.password@.len() >= 8 && values.username@.len() >= 3,
        },
{
    if !equal_char_vecs(&values.password, values.password_confirmation.as_ref().unwrap()) {
        return Some("Passwords do not match.\n".to_owned());
    }
    if values.password.len() < 8 {
        return Some("Password must be at least 8 characters long.\n".to_owned());
    }
    if values.username.len() < 3 {
        return Some("Username must be at least 3 characters long.\n".to_owned());
    }
    None
}

impl App {
    /// Both windows are consistent.
    pub open spec fn wf(self) -> bool {
        &&& self.login_window.wf()
        &&& self.main_window.wf()
    }

    /// An application over the given client, builder, signed-in user and chat
    /// state; it starts on the login window unless a session is held.
    pub fn new(
        api_client: Client,
        chat_builder: ChatBuilder,
        user: Option<User>,
        chat_manager: ChatManager,
    ) -> (r: Self)
        requires
            chat_manager.wf(),
        ensures
            r.wf(),
            r.api_client == api_client,
            r.user == user,
            !r.should_quit,
            r.main_window.chat_manager == chat_manager,
            api_client.auth_tokens is Some ==> r.active_window is Main,
            api_client.auth_tokens is None ==> r.active_window is Login,
    {
        let authenticated = api_client.is_authenticated();
        App {
            login_window: LoginWindow::new(),
            main_window: MainWindow::new(chat_manager),
            active_window: if authenticated {
                Windows::Main
            } else {
                Windows::Login
            },
            api_client,
            chat_builder,
            should_quit: false,
            user,
        }
    }

    /// Whether a session is held.
    pub fn is_authenticated(&self) -> (r: bool)
        ensures
            r == (self.api_client.auth_tokens is Some),
    {
        self.api_client.is_authenticated()
    }

    /// A periodic tick; nothing to do.
    pub fn tick(&mut self)
        ensures
            *final(self) == *old(self),
    {
    }

    /// Asks the event loop to stop.
    pub fn quit(&mut self)
        ensures
            final(self).should_quit,
            final(self).login_window == old(self).login_window,
            final(self).main_window == old(self).main_window,
            final(self).active_window == old(self).active_window,
            final(self).api_client == old(self).api_client,
            final(self).user == old(self).user,
    {
        self.should_quit = true;
    }

    /// Whether the event loop should stop.
    pub fn should_quit(&self) -> (r: bool)
        ensures
            r == self.should_quit,
    {
        self.should_quit
    }

    /// Routes one key press to the active window.
    pub fn pass_input_to_active_entity(&mut self, key_event: KeyEvent)
        requires
            old(self).wf(),
            old(self).active_window is Login ==> old(self).login_window.spec_active().len()
                < usize::MAX,
            old(self).active_window is Main ==> old(self).main_window.spec_active().len()
                < usize::MAX,
        ensures
            final(self).wf(),
            final(self).active_window == old(self).active_window,
            final(self).api_client == old(self).api_client,
            final(self).user == old(self).user,
            final(self).should_quit == old(self).should_quit,
            old(self).active_window is Login ==> final(self).main_window == old(self).main_window
                && login_processed_key(old(self).login_window, final(self).login_window, key_event),
            old(self).active_window is Main ==> final(self).login_window == old(self).login_window
                && main_processed_key(old(self).main_window, final(self).main_window, key_event),
    {
        match self.active_window {
            Windows::Login => self.login_window.process_input(key_event),
            Windows::Main => self.main_window.process_input(key_event),
        }
    }

    /// Decides what one submit keystroke means, per the active window, tab and
    /// input: a login or register attempt (or an inline rejection), a search,
    /// opening the selected chat, or sending the typed message — a message for
    /// a chat that does not exist on the server yet becomes a create-chat
    /// request carrying it.
    pub fn plan_submit(&mut self) -> (r: SubmitPlan)
        requires
            old(self).wf(),
            old(self).active_window is Main && old(self).main_window.active_input_entity
                is SelectChat ==> old(self).main_window.chat_manager.active_selected() is Some,
            old(self).active_window is Main && old(self).main_window.active_input_entity
                is EnterMessage && old(self).main_window.message_input@.len() > 0 ==> old(self).main_window.chat_manager.active_selected() is Some && old(self).user is Some,
        ensures
            final(self).wf(),
            final(self).active_window == old(self).active_window,
            final(self).api_client == old(self).api_client,
            final(self).user == old(self).user,
            final(self).should_quit == old(self).should_quit,
            match r {
                SubmitPlan::LoginAttempt(u, p) => old(self).active_window is Login && old(self).login_window.active_tab is Login && u@ == old(self).login_window.username_input@
                    && p@ == old(self).login_window.actual_password_input@ && u@.len() > 0
                    && p@.len() > 0 && login_inputs_unchanged(
                    old(self).login_window,
                    final(self).login_window,
                ) && final(self).login_window.login_error_message@ =~= Seq::<char>::empty()
                    && final(self).main_window == old(self).main_window,
                SubmitPlan::LoginRejected => old(self).active_window is Login && old(self).login_window.active_tab is Login && (old(self).login_window.username_input@.len()
                    == 0 || old(self).login_window.actual_password_input@.len() == 0)
                    && login_inputs_unchanged(old(self).login_window, final(self).login_window)
                    && final(self).login_window.login_error_message@
                    == "Username and password are required."@ && final(self).main_window == old(self).main_window,
                SubmitPlan::RegisterAttempt(u, p) => old(self).active_window is Login && old(self).login_window.active_tab is Register && u@ == old(self).login_window.register_username_input@ && p@ == old(self).login_window.actual_register_password_input@ && old(self).login_window.actual_register_password_input@ == old(self).login_window.actual_register_password_confirmation_input@ && p@.len() >= 8
                    && u@.len() >= 3 && login_inputs_unchanged(
                    old(self).login_window,
                    final(self).login_window,
                ) && final(self).login_window.login_error_message@ =~= Seq::<char>::empty()
                    && final(self).main_window == old(self).main_window,
                SubmitPlan::RegisterRejected => old(self).active_window is Login && old(self).login_window.active_tab is Register && login_inputs_unchanged(
                    old(self).login_window,
                    final(self).login_window,
                ) && final(self).login_window.register_error_message@.len() > 0 && final(self).main_window == old(self).main_window,
                SubmitPlan::Search(s) => old(self).active_window is Main && old(self).main_window.active_input_entity is SearchChats && s@ == old(self).main_window.search_input@ && s@.len() > 0 && *final(self) == *old(self),
                SubmitPlan::ClearSearch => old(self).active_window is Main && old(self).main_window.active_input_entity is SearchChats && old(self).main_window.search_input@.len() == 0 && *final(self) == *old(self),
                SubmitPlan::OpenChat(c) => old(self).active_window is Main && old(self).main_window.active_input_entity is SelectChat && c@ == ({
                    let m = old(self).main_window.chat_manager;
                    m.active_items()[id_index(m.active_items(), m.active_selected().unwrap()@)]@
                }) && *final(self) == *old(self),
                SubmitPlan::SendMessage(m) => old(self).active_window is Main && old(self).main_window.active_input_entity is EnterMessage && old(self).main_window.message_input@.len() > 0 && ({
                    let mgr = old(self).main_window.chat_manager;
                    let sel = mgr.active_items()[id_index(
                        mgr.active_items(),
                        mgr.active_selected().unwrap()@,
                    )]@;
                    sel.id matches Some(cid) && m.chat_id == cid
                }) && m.text@ == old(self).main_window.message_input@ && m.sender_id@ == old(self).user.unwrap()@.id && message_popped(old(self).main_window, final(self).main_window)
                    && final(self).login_window == old(self).login_window,
                SubmitPlan::CreateChat(nc) => old(self).active_window is Main && old(self).main_window.active_input_entity is EnterMessage && old(self).main_window.message_input@.len() > 0 && ({
                    let mgr = old(self).main_window.chat_manager;
                    let sel = mgr.active_items()[id_index(
                        mgr.active_items(),
                        mgr.active_selected().unwrap()@,
                    )]@;
                    sel.id is None && nc.member_ids@.map_values(|s: String| s@)
                        == sel.members.map_values(|u: crate::schemas::UserView| u.id)
                }) && nc.name is None && nc.first_message@ == old(self).main_window.message_input@
                    && message_popped(old(self).main_window, final(self).main_window) && final(self).login_window == old(self).login_window,
                SubmitPlan::NoMessage => old(self).active_window is Main && old(self).main_window.active_input_entity is EnterMessage && old(self).main_window.message_input@.len() == 0 && message_popped(
                    old(self).main_window,
                    final(self).main_window,
                ) && final(self).login_window == old(self).login_window,
            },
    {
        match self.active_window {
            Windows::Login => {
                match self.login_window.active_tab {
                    LoginTabs::Login => {
                        self.login_window.login_error_message = String::new();
                        let values = self.login_window.get_input_values();
                        if values.username.len() == 0 || values.password.len() == 0 {
                            self.login_window.login_error_message =
                                "Username and password are required.".to_owned();
                            SubmitPlan::LoginRejected
                        } else {
                            SubmitPlan::LoginAttempt(
                                input_to_string(&values.username),
                                input_to_string(&values.password),
                            )
                        }
                    },
                    LoginTabs::Register => {
                        self.login_window.login_error_message = String::new();
                        let values = self.login_window.get_input_values();
                        match validate_register_input(&values) {
                            Some(error) => {
                                proof {
                                    reveal_strlit("Passwords do not match.\n");
                                    reveal_strlit("Password must be at least 8 characters long.\n");
                                    reveal_strlit("Username must be at least 3 characters long.\n");
                                }
                                self.login_window.register_error_message = error;
                                SubmitPlan::RegisterRejected
                            },
                            None => SubmitPlan::RegisterAttempt(
                                input_to_string(&values.username),
                                input_to_string(&values.password),
                            ),
                        }
                    },
                }
            },
            Windows::Main => {
                match self.main_window.get_active_input_entity() {
                    ActiveInputEntity::SearchChats => {
                        let s = self.main_window.get_active_input();
                        if s.as_str().is_empty() {
                            SubmitPlan::ClearSearch
                        } else {
                            SubmitPlan::Search(s)
                        }
                    },
                    ActiveInputEntity::SelectChat => {
                        let c = self.main_window.chat_manager.get_selected_chat().unwrap();
                        SubmitPlan::OpenChat(c)
                    },
                    ActiveInputEntity::EnterMessage => {
                        let message = self.main_window.pop_message_input();
                        if message.len() == 0 {
                            SubmitPlan::NoMessage
                        } else {
                            let chat = self.main_window.chat_manager.get_selected_chat().unwrap();
                            match chat.id {
                                Some(cid) => SubmitPlan::SendMessage(
                                    NewMessage {
                                        chat_id: cid,
                                        sender_id: self.user.as_ref().unwrap().id.clone(),
                                        text: input_to_string(&message),
                                    },
                                ),
                                None => {
                                    let mut member_ids: Vec<String> = Vec::new();
                                    for i in 0..chat.members.len()
                                        invariant
                                            member_ids@.len() == i,
                                            forall|j: int|
                                                0 <= j < i ==> (#[trigger] member_ids@[j])@
                                                    == chat.members@[j]@.id,
                                    {
                                        member_ids.push(chat.members[i].id.clone());
                                    }
                                    proof {
                                        assert forall|j: int|
                                            0 <= j < member_ids@.len() implies (
                                        #[trigger] member_ids@[j])@ == chat@.members.map_values(
                                            |u: crate::schemas::UserView| u.id,
                                        )[j] by {
                                            assert(chat@.members[j] == chat.members@[j]@);
                                        }
                                        assert(member_ids@.map_values(|s: String| s@)
                                            =~= chat@.members.map_values(
                                            |u: crate::schemas::UserView| u.id,
                                        ));
                                    }
                                    SubmitPlan::CreateChat(
                                        NewChatModel {
                                            name: None,
                                            member_ids,
                                            first_message: input_to_string(&message),
                                        },
                                    )
                                },
                            }
                        }
                    },
                }
            },
        }
    }

    /// Applies a login response: on success the user is recorded, the session
    /// opens and the main window takes over; on failure the error is shown
    /// inline and no state is touched.
    pub fn finish_login(&mut self, username: String, status: u16, body: &BodySummary)
        requires
            old(self).wf(),
        ensures
            final(self).wf(),
            final(self).main_window == old(self).main_window,
            final(self).should_quit == old(self).should_quit,
            spec_is_success(status) && auth_body_ok(body) ==> (final(self).user matches Some(u)
                && u@.id == body.user_id.unwrap()@ && u@.username == username@) && tokens_are(
                final(self).api_client,
                body.access_token.unwrap()@,
                body.refresh_token.unwrap()@,
            ) && final(self).active_window is Main && final(self).login_window == old(self).login_window,
            !(spec_is_success(status) && auth_body_ok(body)) ==> final(self).user == old(self).user
                && final(self).api_client == old(self).api_client && final(self).active_window
                == old(self).active_window && login_inputs_unchanged(
                old(self).login_window,
                final(self).login_window,
            ) && final(self).login_window.register_error_message == old(self).login_window.register_error_message,
            !spec_is_success(status) && body.parse_ok && body.detail is Some ==> final(self).login_window.login_error_message@ == "Request error: "@ + body.detail.unwrap()@,
    {
        let outcome = self.api_client.complete_login(status, body);
        match outcome {
            Ok(user_id) => {
                self.user = Some(User { id: user_id, username });
                self.active_window = Windows::Main;
            },
            Err(e) => {
                self.login_window.login_error_message = e.as_string();
            },
        }
    }

    /// Applies a register response: like a login, with the error shown under
    /// the register form.
    pub fn finish_register(&mut self, username: String, status: u16, body: &BodySummary)
        requires
            old(self).wf(),
        ensures
            final(self).wf(),
            final(self).main_window == old(self).main_window,
            final(self).should_quit == old(self).should_quit,
            spec_is_success(status) && auth_body_ok(body) ==> (final(self).user matches Some(u)
                && u@.id == body.user_id.unwrap()@ && u@.username == username@) && tokens_are(
                final(self).api_client,
                body.access_token.unwrap()@,
                body.refresh_token.unwrap()@,
            ) && final(self).active_window is Main && final(self).login_window == old(self).login_window,
            !(spec_is_success(status) && auth_body_ok(body)) ==> final(self).user == old(self).user
                && final(self).api_client == old(self).api_client && final(self).active_window
                == old(self).active_window && login_inputs_unchanged(
                old(self).login_window,
                final(self).login_window,
            ) && final(self).login_window.login_error_message == old(self).login_window.login_error_message,
            !spec_is_success(status) && body.parse_ok ==> final(self).login_window.register_error_message@ == "Request error: "@
                + crate::api::spec_join_lines(
                body.error_messages@.map_values(|s: String| s@),
            ),
    {
        let outcome = self.api_client.complete_register(status, body);
        match outcome {
            Ok(user_id) => {
                self.user = Some(User { id: user_id, username });
                self.active_window = Windows::Main;
            },
            Err(e) => {
                self.login_window.register_error_message = e.as_string();
            },
        }
    }

    /// Decides how to open an accepted chat. A chat that exists on the server
    /// opens under its own key and is marked read. A prospective chat from a
    /// search opens the existing chat of the same name when the primary list
    /// has one — its real key, never the synthetic one — and only a truly new
    /// conversation opens under the synthetic key.
    pub fn plan_open_chat(&self, chat: &Chat) -> (r: OpenChatPlan)
        requires
            self.wf(),
        ensures
            chat@.id matches Some(cid) ==> r.target_internal_id@ == chat@.internal_id
                && !r.specifically && r.mark_read == Some(cid) && (r.select_after matches Some(s)
                && s@ == spec_dec(cid as nat)),
            chat@.id is None && any_named(
                self.main_window.chat_manager.chats.items@,
                chat@.name,
            ) ==> ({
                let items = self.main_window.chat_manager.chats.items@;
                let w = first_name_index(items, chat@.name);
                &&& r.target_internal_id@ == items[w]@.internal_id
                &&& r.specifically
                &&& r.mark_read == items[w]@.id
                &&& r.select_after matches Some(s) && s@ == spec_dec(
                    items[w]@.id.unwrap() as nat,
                )
            }),
            chat@.id is None && !any_named(
                self.main_window.chat_manager.chats.items@,
                chat@.name,
            ) ==> r.target_internal_id@ == chat@.internal_id && !r.specifically && r.mark_read
                is None && r.select_after is None,
    {
        match chat.id {
            Some(cid) => OpenChatPlan {
                target_internal_id: chat.internal_id(),
                specifically: false,
                mark_read: Some(cid),
                select_after: Some(u32_to_dec_string(cid)),
            },
            None => {
                match self.main_window.chat_manager.get_chat_by_name(&chat.name) {
                    Some(existing) => {
                        proof {
                            let items = self.main_window.chat_manager.chats.items@;
                            let i = choose|i: int|
                                0 <= i < items.len() && existing@ == (#[trigger] items[i])@
                                    && items[i]@.name == chat@.name && (forall|j: int|
                                    0 <= j < i ==> (#[trigger] items[j])@.name != chat@.name);
                            lemma_first_name_unique(items, chat@.name, i);
                        }
                        let cid = existing.id.unwrap();
                        OpenChatPlan {
                            target_internal_id: existing.internal_id(),
                            specifically: true,
                            mark_read: Some(cid),
                            select_after: Some(u32_to_dec_string(cid)),
                        }
                    },
                    None => OpenChatPlan {
                        target_internal_id: chat.internal_id(),
                        specifically: false,
                        mark_read: None,
                        select_after: None,
                    },
                }
            },
        }
    }

    /// Applies an open-chat plan: loads the target, switches to message entry,
    /// and — when an existing chat was opened — drops the search overlay and
    /// selects it in the primary list.
    pub fn apply_open_chat(&mut self, plan: OpenChatPlan)
        requires
            old(self).wf(),
            plan.select_after matches Some(s) ==> has_id(
                old(self).main_window.chat_manager.chats.items@,
                s@,
            ),
        ensures
            final(self).wf(),
            final(self).login_window == old(self).login_window,
            final(self).api_client == old(self).api_client,
            final(self).user == old(self).user,
            final(self).main_window.active_input_entity is EnterMessage,
            final(self).main_window.chat_manager.loaded_internal_chat_id matches Some(l) && l@
                == plan.target_internal_id@,
            plan.select_after matches Some(s) ==> !final(self).main_window.chat_manager.searching() && (final(self).main_window.chat_manager.chats.selected_item_id matches Some(sid) && sid@ == s@),
    {
        let ghost pre_items = self.main_window.chat_manager.chats.items@;
        if plan.specifically {
            self.main_window.chat_manager.load_specifically_chat(plan.target_internal_id);
        } else {
            self.main_window.chat_manager.load_chat(plan.target_internal_id);
        }
        proof {
            let post_items = self.main_window.chat_manager.chats.items@;
            assert forall|id: Seq<char>| has_id(pre_items, id) implies has_id(
                post_items,
                id,
            ) by {
                let i = choose|i: int| 0 <= i < pre_items.len() && pre_items[i]@.internal_id == id;
                assert(post_items[i]@.internal_id == id);
            }
        }
        self.main_window.set_active_input_entity(ActiveInputEntity::EnterMessage);
        match plan.select_after {
            Some(chat_key) => {
                self.main_window.chat_manager.clear_search_results();
                self.main_window.chat_manager.select_chat(chat_key);
            },
            None => {},
        }
    }

    /// Applies a created chat: the search overlay and the search line are
    /// dropped, the chat enters the primary list built from the server's
    /// record, and it becomes both the selected and the loaded chat, read.
    pub fn apply_created_chat(&mut self, chat_model: ChatModel)
        requires
            old(self).wf(),
            !(old(self).main_window.active_input_entity is SelectChat),
            nameable(chat_model@, old(self).chat_builder.spec_current()),
            forall|m: int|
                0 <= m < chat_model@.member_ids.len()
                    ==> old(self).chat_builder.user_provider@.contains_key(
                    #[trigger] chat_model@.member_ids[m],
                ),
            forall|m: int|
                0 <= m < chat_model@.messages.len()
                    ==> old(self).chat_builder.user_provider@.contains_key(
                    (#[trigger] chat_model@.messages[m]).sender_id,
                ),
            !has_id(
                old(self).main_window.chat_manager.chats.items@,
                spec_dec(chat_model@.id as nat),
            ),
        ensures
            final(self).wf(),
            final(self).login_window == old(self).login_window,
            final(self).api_client == old(self).api_client,
            final(self).user == old(self).user,
            final(self).active_window == old(self).active_window,
            final(self).main_window.active_input_entity == old(
                self,
            ).main_window.active_input_entity,
            final(self).main_window.message_input == old(self).main_window.message_input,
            final(self).main_window.search_input@ =~= Seq::<char>::empty(),
            final(self).main_window.chat_manager.search_results.items@ =~= Seq::<Chat>::empty(),
            sorted_by_rank(final(self).main_window.chat_manager.chats.items@),
            (final(self).main_window.chat_manager.chats.selected_item_id matches Some(sid)
                && sid@ == spec_dec(chat_model@.id as nat)),
            (final(self).main_window.chat_manager.loaded_internal_chat_id matches Some(l) && l@
                == spec_dec(chat_model@.id as nat)),
            ({
                let dir = old(self).chat_builder.user_provider@;
                let cur = old(self).chat_builder.spec_current();
                let key = spec_dec(chat_model@.id as nat);
                exists|built: Chat|
                    {
                        let sorted = sort_ranked(
                            old(self).main_window.chat_manager.chats.items@.push(built),
                        );
                        let w = id_index(sorted, key);
                        &&& (#[trigger] built@) == spec_build_chat(chat_model@, dir, cur)
                        &&& final(self).main_window.chat_manager.chats.items@ == sorted.update(
                            w,
                            Chat { number_of_unread_messages: 0, ..sorted[w] },
                        )
                    }
            }),
    {
        let cid = chat_model.id;
        let key = u32_to_dec_string(cid);
        self.main_window.chat_manager.clear_search_results();
        self.main_window.clear_search();
        let built = self.chat_builder.build_chat_from_model(chat_model);
        let ghost built_value = built;
        let ghost before = self.main_window.chat_manager.chats.items@;
        proof {
            assert(server_keyed(built));
        }
        self.main_window.chat_manager.add_chat(built);
        proof {
            lemma_sort_ranked_has_id(before.push(built_value), key@);
            assert(before.push(built_value)[before.len() as int] == built_value);
            assert(has_id(before.push(built_value), key@));
        }
        self.main_window.chat_manager.select_chat(key.clone());
        self.main_window.chat_manager.load_chat(key);
    }

    /// Applies one inbound real-time message: the sender is resolved through
    /// the directory and the enriched message is handed to the manager — the
    /// buffer grows, the last message is replaced, the list re-sorts, and the
    /// unread counter rises by one unless the message is read or its chat is
    /// loaded.
    pub fn apply_inbound_message(&mut self, model: MessageModel)
        requires
            old(self).wf(),
            old(self).chat_builder.user_provider@.contains_key(model.sender_id@),
            has_id(
                old(self).main_window.chat_manager.chats.items@,
                spec_dec(model.chat_id as nat),
            ),
            old(self).main_window.chat_manager.messages@.contains_key(model.chat_id),
        ensures
            final(self).wf(),
            final(self).login_window == old(self).login_window,
            final(self).api_client == old(self).api_client,
            final(self).user == old(self).user,
            final(self).active_window == old(self).active_window,
            final(self).main_window.search_input == old(self).main_window.search_input,
            final(self).main_window.message_input == old(self).main_window.message_input,
            final(self).main_window.active_input_entity == old(
                self,
            ).main_window.active_input_entity,
            final(self).main_window.cursor_position == old(self).main_window.cursor_position,
            final(self).main_window.chat_manager.search_results == old(
                self,
            ).main_window.chat_manager.search_results,
            final(self).main_window.chat_manager.loaded_internal_chat_id == old(
                self,
            ).main_window.chat_manager.loaded_internal_chat_id,
            final(self).main_window.chat_manager.chats.selected_item_id == old(
                self,
            ).main_window.chat_manager.chats.selected_item_id,
            sorted_by_rank(final(self).main_window.chat_manager.chats.items@),
            ({
                let dir = old(self).chat_builder.user_provider@;
                let key = spec_dec(model.chat_id as nat);
                let mgr = old(self).main_window.chat_manager;
                let w = id_index(mgr.chats.items@, key);
                let c = mgr.chats.items@[w];
                exists|m: Message|
                    {
                        &&& (#[trigger] m@) == spec_build_message(model@, dir)
                        &&& final(self).main_window.chat_manager.chats.items@ == sort_ranked(
                            mgr.chats.items@.update(
                                w,
                                Chat {
                                    number_of_unread_messages: if !model.is_read && !mgr.loaded_is(
                                        key,
                                    ) {
                                        sat32(c@.number_of_unread_messages + 1)
                                    } else {
                                        c@.number_of_unread_messages
                                    },
                                    last_message: Some(m),
                                    ..c
                                },
                            ),
                        )
                        &&& final(self).main_window.chat_manager.buffers() == mgr.buffers().insert(
                            model.chat_id,
                            mgr.buffers()[model.chat_id].push(m@),
                        )
                    }
            }),
    {
        let ghost model_view = model@;
        let message = self.chat_builder.build_message_from_model(model);
        let ghost witness = message;
        self.main_window.chat_manager.add_message(message);
        proof {
            assert(witness@ == spec_build_message(
                model_view,
                old(self).chat_builder.user_provider@,
            ));
        }
    }
}

/// Loads fetched chat records into the manager, built through the directory:
/// each record's chat enters the primary list with its last message the most
/// recent record and its unread counter the count of unread records, its
/// buffer holds exactly the record's messages, and the list ends sorted by
/// recency.
pub fn load_records(manager: &mut ChatManager, builder: &ChatBuilder, records: Vec<ChatModel>)
    requires
        old(manager).wf(),
        forall|i: int|
            0 <= i < records@.len() ==> nameable(
                (#[trigger] records@[i])@,
                builder.spec_current(),
            ),
        forall|i: int, m: int|
            0 <= i < records@.len() && 0 <= m < records@[i]@.member_ids.len()
                ==> builder.user_provider@.contains_key(#[trigger] records@[i]@.member_ids[m]),
        forall|i: int, m: int|
            0 <= i < records@.len() && 0 <= m < records@[i]@.messages.len()
                ==> builder.user_provider@.contains_key(
                (#[trigger] records@[i]@.messages[m]).sender_id,
            ),
        forall|i: int, j: int|
            0 <= i < j < records@.len() ==> (#[trigger] records@[i])@.id != (
            #[trigger] records@[j])@.id,
        forall|i: int|
            0 <= i < records@.len() ==> !has_id(
                old(manager).chats.items@,
                spec_dec((#[trigger] records@[i])@.id as nat),
            ),
    ensures
        final(manager).wf(),
        sorted_by_rank(final(manager).chats.items@),
        ({
            let dir = builder.user_provider@;
            let cur = builder.spec_current();
            exists|built: Seq<Chat>|
                {
                    &&& built.len() == records@.len()
                    &&& (forall|i: int|
                        0 <= i < built.len() ==> (#[trigger] built[i])@ == spec_build_chat(
                            records@[i]@,
                            dir,
                            cur,
                        ))
                    &&& final(manager).chats.items@ == sort_ranked(
                        old(manager).chats.items@ + built,
                    )
                }
        }),
        final(manager).buffers() == with_message_buffers(
            old(manager).buffers(),
            records@.map_values(
                |r: ChatModel|
                    (
                        r@.id,
                        r@.messages.map_values(
                            |mm: MessageModelView| spec_build_message(
                                mm,
                                builder.user_provider@,
                            ),
                        ),
                    ),
            ),
        ),
        final(manager).search_results == old(manager).search_results,
        final(manager).loaded_internal_chat_id == old(manager).loaded_internal_chat_id,
        final(manager).chats.selected_item_id == old(manager).chats.selected_item_id,
{
    let ghost rs = records@;
    let ghost dir = builder.user_provider@;
    let ghost cur = builder.spec_current();
    let mut entries: Vec<(Chat, Vec<Message>)> = Vec::new();
    let mut remaining = records;
    let total = remaining.len();
    let mut k: usize = 0;
    while k < total
        invariant
            total == rs.len(),
            rs.len() <= usize::MAX,
            k <= total,
            remaining@ =~= rs.skip(k as int),
            entries@.len() == k,
            forall|i: int|
                0 <= i < k ==> (#[trigger] entries@[i]).0@ == spec_build_chat(rs[i]@, dir, cur),
            forall|i: int|
                0 <= i < k ==> (#[trigger] entries@[i]).1@.map_values(|m: Message| m@)
                    == rs[i]@.messages.map_values(
                    |mm: MessageModelView| spec_build_message(mm, dir),
                ),
            dir == builder.user_provider@,
            cur == builder.spec_current(),
            forall|i: int| 0 <= i < rs.len() ==> nameable((#[trigger] rs[i])@, cur),
            forall|i: int, m: int|
                0 <= i < rs.len() && 0 <= m < rs[i]@.member_ids.len() ==> dir.contains_key(
                    #[trigger] rs[i]@.member_ids[m],
                ),
            forall|i: int, m: int|
                0 <= i < rs.len() && 0 <= m < rs[i]@.messages.len() ==> dir.contains_key(
                    (#[trigger] rs[i]@.messages[m]).sender_id,
                ),
        decreases total - k,
    {
        let record = remaining.remove(0);
        proof {
            assert(record == rs[k as int]);
        }
        let ghost batch = record@.messages;
        let mut msgs: Vec<Message> = Vec::new();
        let count = record.messages.len();
        let mut t: usize = 0;
        while t < count
            invariant
                count == batch.len(),
                batch.len() <= usize::MAX,
                t <= count,
                msgs@.len() == t,
                batch == record@.messages,
                record == rs[k as int],
                k < rs.len(),
                forall|i: int|
                    0 <= i < t ==> (#[trigger] msgs@[i])@ == spec_build_message(batch[i], dir),
                dir == builder.user_provider@,
                forall|m: int|
                    0 <= m < rs[k as int]@.messages.len() ==> dir.contains_key(
                        (#[trigger] rs[k as int]@.messages[m]).sender_id,
                    ),
            decreases count - t,
        {
            proof {
                assert(record@.messages[t as int] == rs[k as int]@.messages[t as int]);
                assert(record.messages@[t as int]@ == record@.messages[t as int]);
            }
            msgs.push(builder.build_message_from_model(record.messages[t].duplicate()));
            t = t + 1;
        }
        let chat = builder.build_chat_from_model(record);
        proof {
            assert(chat@ == spec_build_chat(rs[k as int]@, dir, cur));
            assert(msgs@.map_values(|m: Message| m@) =~= rs[k as int]@.messages.map_values(
                |mm: MessageModelView| spec_build_message(mm, dir),
            ));
        }
        entries.push((chat, msgs));
        k = k + 1;
        proof {
            assert(remaining@ =~= rs.skip(k as int));
        }
    }
    let ghost es = entries@;
    let ghost mapped = es.map_values(|e: (Chat, Vec<Message>)| e.0);
    proof {
        assert forall|i: int| 0 <= i < es.len() implies server_keyed(
            (#[trigger] es[i]).0,
        ) by {
            assert(es[i].0@ == spec_build_chat(rs[i]@, dir, cur));
        }
        let combined = old(manager).chats.items@ + mapped;
        assert forall|i: int, j: int| 0 <= i < j < combined.len() implies (
        #[trigger] combined[i])@.internal_id != (#[trigger] combined[j])@.internal_id by {
            let base = old(manager).chats.items@.len();
            if j < base {
                assert(combined[i] == old(manager).chats.items@[i]);
                assert(combined[j] == old(manager).chats.items@[j]);
            } else if i < base {
                assert(combined[i] == old(manager).chats.items@[i]);
                assert(combined[j] == mapped[j - base]);
                assert(mapped[j - base]@ == spec_build_chat(rs[j - base]@, dir, cur));
                if combined[i]@.internal_id == combined[j]@.internal_id {
                    assert(has_id(
                        old(manager).chats.items@,
                        spec_dec(rs[j - base]@.id as nat),
                    ));
                }
            } else {
                assert(combined[i] == mapped[i - base]);
                assert(combined[j] == mapped[j - base]);
                assert(mapped[i - base]@ == spec_build_chat(rs[i - base]@, dir, cur));
                assert(mapped[j - base]@ == spec_build_chat(rs[j - base]@, dir, cur));
                if combined[i]@.internal_id == combined[j]@.internal_id {
                    lemma_spec_dec_injective(
                        rs[i - base]@.id as nat,
                        rs[j - base]@.id as nat,
                    );
                }
            }
        }
    }
    manager.install_chats(entries);
    proof {
        assert forall|i: int| 0 <= i < mapped.len() implies (#[trigger] mapped[i])@
            == spec_build_chat(rs[i]@, dir, cur) by {
            assert(mapped[i] == es[i].0);
        }
        assert(es.map_values(
            |e: (Chat, Vec<Message>)| (e.0@.id.unwrap(), e.1@.map_values(|m: Message| m@)),
        ) =~~= rs.map_values(
            |r: ChatModel|
                (
                    r@.id,
                    r@.messages.map_values(
                        |mm: MessageModelView| spec_build_message(mm, dir),
                    ),
                ),
        ));
    }
}

/// The message line was taken: it is empty now, the cursor sits at the active
/// input's end, and nothing else changed.
pub open spec fn message_popped(pre: MainWindow, post: MainWindow) -> bool {
    &&& post.message_input@ =~= Seq::<char>::empty()
    &&& post.search_input == pre.search_input
    &&& post.chat_manager == pre.chat_manager
    &&& post.active_input_entity == pre.active_input_entity
    &&& post.cursor_position == post.spec_active().len()
}

/// The synthetic chats a directory search turns into: one prospective chat
/// per found user, keyed by the username, with the found user and the current
/// user as members, no message and nothing unread.
pub fn search_chats_from_users(users: Vec<User>, current: &User) -> (r: Vec<Chat>)
    ensures
        r@.len() == users@.len(),
        forall|i: int|
            0 <= i < r@.len() ==> ({
                let c = (#[trigger] r@[i])@;
                &&& c.internal_id == users@[i]@.username
                &&& c.id is None
                &&& c.name == users@[i]@.username
                &&& c.members =~= seq![users@[i]@, current@]
                &&& c.last_message is None
                &&& c.number_of_unread_messages == 0
            }),
{
    let mut out: Vec<Chat> = Vec::new();
    let mut remaining = users;
    let ghost all = remaining@;
    let mut k: usize = 0;
    let total = remaining.len();
    while k < total
        invariant
            total == all.len(),
            all.len() <= usize::MAX,
            k + remaining@.len() == all.len(),
            remaining@ =~= all.skip(k as int),
            out@.len() == k,
            forall|i: int|
                0 <= i < k ==> ({
                    let c = (#[trigger] out@[i])@;
                    &&& c.internal_id == all[i]@.username
                    &&& c.id is None
                    &&& c.name == all[i]@.username
                    &&& c.members =~= seq![all[i]@, current@]
                    &&& c.last_message is None
                    &&& c.number_of_unread_messages == 0
                }),
        decreases total - k,
    {
        let user = remaining.remove(0);
        proof {
            assert(user == all[k as int]);
        }
        let mut members: Vec<User> = Vec::new();
        let name = user.username.clone();
        members.push(user);
        members.push(current.duplicate());
        let c = Chat {
            internal_id: name.clone(),
            id: None,
            name,
            members,
            last_message: None,
            number_of_unread_messages: 0,
        };
        proof {
            assert(c@.members =~= seq![all[k as int]@, current@]);
        }
        out.push(c);
        k = k + 1;
        proof {
            assert(remaining@ =~= all.skip(k as int));
        }
    }
    out
}

/// Whether some entry of the list holds these characters.
pub open spec fn holds_id(out: Seq<String>, id: Seq<char>) -> bool {
    exists|t: int| 0 <= t < out.len() && (#[trigger] out[t])@ == id
}

/// Whether these characters are a member id of one of the records.
pub open spec fn is_member_id(chats: Seq<ChatModel>, id: Seq<char>) -> bool {
    exists|c: int, m: int|
        0 <= c < chats.len() && 0 <= m < chats[c]@.member_ids.len() && (#[trigger] (
        chats[c]@.member_ids[m])) == id
}

/// Every distinct member id over these chat records, each exactly once, in
/// first-appearance order: the result holds an id exactly when some record
/// lists it as a member, and no id twice.
pub fn extract_user_ids(chats: &Vec<ChatModel>) -> (r: Vec<String>)
    ensures
        forall|i: int, j: int| 0 <= i < j < r@.len() ==> (#[trigger] r@[i])@ != (#[trigger] r@[j])@,
        forall|c: int, m: int|
            0 <= c < chats@.len() && 0 <= m < chats@[c]@.member_ids.len() ==> #[trigger] holds_id(
                r@,
                chats@[c]@.member_ids[m],
            ),
        forall|t: int| 0 <= t < r@.len() ==> is_member_id(chats@, (#[trigger] r@[t])@),
{
    let mut out: Vec<String> = Vec::new();
    let n = chats.len();
    for c in 0..n
        invariant
            n == chats@.len(),
            forall|i: int, j: int|
                0 <= i < j < out@.len() ==> (#[trigger] out@[i])@ != (#[trigger] out@[j])@,
            forall|cc: int, mm: int|
                0 <= cc < c && 0 <= mm < chats@[cc]@.member_ids.len() ==> #[trigger] holds_id(
                    out@,
                    chats@[cc]@.member_ids[mm],
                ),
            forall|t: int| 0 <= t < out@.len() ==> is_member_id(chats@, (#[trigger] out@[t])@),
    {
        let members = chats[c].member_ids.len();
        for m in 0..members
            invariant
                n == chats@.len(),
                c < n,
                members == chats@[c as int]@.member_ids.len(),
                forall|i: int, j: int|
                    0 <= i < j < out@.len() ==> (#[trigger] out@[i])@ != (#[trigger] out@[j])@,
                forall|cc: int, mm: int|
                    0 <= cc < c && 0 <= mm < chats@[cc]@.member_ids.len() ==> #[trigger] holds_id(
                        out@,
                        chats@[cc]@.member_ids[mm],
                    ),
                forall|mm: int|
                    0 <= mm < m ==> #[trigger] holds_id(out@, chats@[c as int]@.member_ids[mm]),
                forall|t: int| 0 <= t < out@.len() ==> is_member_id(chats@, (#[trigger] out@[t])@),
        {
            let ghost pre_out = out@;
            let id = &chats[c].member_ids[m];
            proof {
                assert(chats@[c as int]@.member_ids[m as int] == id@);
            }
            let present = contains_string(&out, id);
            if !present {
                out.push(id.clone());
            }
            proof {
                assert forall|t: int| 0 <= t < pre_out.len() implies out@[t] == pre_out[t] by {}
                assert forall|i: int, j: int| 0 <= i < j < out@.len() implies (
                #[trigger] out@[i])@ != (#[trigger] out@[j])@ by {
                    if j < pre_out.len() {
                        assert(out@[i] == pre_out[i] && out@[j] == pre_out[j]);
                    } else {
                        assert(!present);
                        assert(out@[i] == pre_out[i]);
                        assert(out@[j]@ == id@);
                        assert(!holds_id(pre_out, id@));
                        assert(!(pre_out[i]@ == id@));
                    }
                }
                assert(holds_id(out@, chats@[c as int]@.member_ids[m as int])) by {
                    if present {
                        let t = choose|t: int|
                            0 <= t < pre_out.len() && (#[trigger] pre_out[t])@ == id@;
                        assert(out@[t]@ == chats@[c as int]@.member_ids[m as int]);
                    } else {
                        assert(out@[out@.len() - 1]@ == chats@[c as int]@.member_ids[m as int]);
                    }
                }
                assert forall|mm: int| 0 <= mm < m + 1 implies #[trigger] holds_id(
                    out@,
                    chats@[c as int]@.member_ids[mm],
                ) by {
                    if mm < m {
                        assert(holds_id(pre_out, chats@[c as int]@.member_ids[mm]));
                        let t = choose|t: int|
                            0 <= t < pre_out.len() && (#[trigger] pre_out[t])@
                                == chats@[c as int]@.member_ids[mm];
                        assert(out@[t]@ == chats@[c as int]@.member_ids[mm]);
                    }
                }
                assert forall|cc: int, mm: int|
                    0 <= cc < c && 0 <= mm < chats@[cc]@.member_ids.len() implies #[trigger] holds_id(
                    out@,
                    chats@[cc]@.member_ids[mm],
                ) by {
                    assert(holds_id(pre_out, chats@[cc]@.member_ids[mm]));
                    let t = choose|t: int|
                        0 <= t < pre_out.len() && (#[trigger] pre_out[t])@
                            == chats@[cc]@.member_ids[mm];
                    assert(out@[t]@ == chats@[cc]@.member_ids[mm]);
                }
                assert forall|t: int| 0 <= t < out@.len() implies is_member_id(
                    chats@,
                    (#[trigger] out@[t])@,
                ) by {
                    if t >= pre_out.len() {
                        assert(out@[t]@ == chats@[c as int]@.member_ids[m as int]);
                        assert(0 <= c < chats@.len() && 0 <= (m as int) < (
                        chats@[c as int])@.member_ids.len());
                    }
                }
            }
        }
    }
    out
}

/// Whether some entry holds these characters.
fn contains_string(haystack: &Vec<String>, needle: &String) -> (r: bool)
    ensures
        r == holds_id(haystack@, needle@),
{
    let n = haystack.len();
    for t in 0..n
        invariant
            n == haystack@.len(),
            forall|j: int| 0 <= j < t ==> (#[trigger] haystack@[j])@ != needle@,
    {
        if crate::helpers::equal_strings(&haystack[t], needle) {
            proof {
                assert(haystack@[t as int]@ == needle@);
            }
            return true;
        }
    }
    proof {
        if holds_id(haystack@, needle@) {
            let t = choose|t: int|
                0 <= t < haystack@.len() && (#[trigger] haystack@[t])@ == needle@;
        }
    }
    false
}

} // verus!
