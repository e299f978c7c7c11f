//! Enrichment of wire records into display-ready entities.
//!
//! The builder resolves member and sender ids through a snapshot of known
//! users (the user directory) and derives a chat's name, last message and
//! unread count. Enrichment is one-shot: extending the directory later does
//! not change chats already built.

use vstd::prelude::*;
use vstd::hash_map::StringHashMap;
use crate::chat::{Chat, ChatView, Message, MessageView};
use crate::helpers::digits::{spec_dec, u32_to_dec_string};
use crate::helpers::equal_strings;
use crate::helpers::types::ChatId;
use crate::schemas::{ChatModel, ChatModelView, MessageModel, MessageModelView, User, UserView};

verus! {

/// A directory of known users, keyed by user id.
pub struct UserProvider {
    users: StringHashMap<User>,
}

impl View for UserProvider {
    type V = Map<Seq<char>, UserView>;

    closed spec fn view(&self) -> Map<Seq<char>, UserView> {
        self.users@.map_values(|u: User| u@)
    }
}

/// A directory maps each id to a user carrying that id.
pub open spec fn directory_wf(dir: Map<Seq<char>, UserView>) -> bool {
    forall|k: Seq<char>| #[trigger] dir.contains_key(k) ==> dir[k].id == k
}

/// The directory that a sequence of users builds: each user keyed by its id,
/// later entries replacing earlier ones.
pub open spec fn with_users(dir: Map<Seq<char>, UserView>, s: Seq<UserView>) -> Map<
    Seq<char>,
    UserView,
>
    decreases s.len(),
{
    if s.len() == 0 {
        dir
    } else {
        with_users(dir, s.drop_last()).insert(s.last().id, s.last())
    }
}

proof fn lemma_with_users_wf(dir: Map<Seq<char>, UserView>, s: Seq<UserView>)
    requires
        directory_wf(dir),
    ensures
        directory_wf(with_users(dir, s)),
    decreases s.len(),
{
    if s.len() > 0 {
        lemma_with_users_wf(dir, s.drop_last());
    }
}

impl UserProvider {
    /// A directory holding the given users, keyed by their ids.
    pub fn new(users: Vec<User>) -> (r: Self)
        ensures
            r@ == with_users(
                Map::<Seq<char>, UserView>::empty(),
                users@.map_values(|u: User| u@),
            ),
            directory_wf(r@),
    {
        let ghost target = users@.map_values(|u: User| u@);
        let mut m = StringHashMap::<User>::new();
        proof {
            assert(m@.map_values(|u: User| u@) =~= with_users(
                Map::<Seq<char>, UserView>::empty(),
                target.take(0),
            ));
        }
        for i in 0..users.len()
            invariant
                m@.map_values(|u: User| u@) == with_users(
                    Map::<Seq<char>, UserView>::empty(),
                    target.take(i as int),
                ),
                target == users@.map_values(|u: User| u@),
        {
            let user = users[i].duplicate();
            let ghost pre = m@;
            m.insert(user.id.clone(), user);
            proof {
                assert(target.take(i + 1).drop_last() =~= target.take(i as int));
                assert(target.take(i + 1).last() == users@[i as int]@);
                assert(m@.map_values(|u: User| u@) =~= pre.map_values(|u: User| u@).insert(
                    users@[i as int]@.id,
                    users@[i as int]@,
                ));
            }
        }
        proof {
            assert(target.take(users@.len() as int) =~= target);
            lemma_with_users_wf(Map::<Seq<char>, UserView>::empty(), target);
        }
        UserProvider { users: m }
    }

    /// The user with the given id.
    pub fn get_user(&self, user_id: &str) -> (r: User)
        requires
            self@.contains_key(user_id@),
        ensures
            r@ == self@[user_id@],
    {
        self.users.get(user_id).unwrap().duplicate()
    }

    fn insert_user(&mut self, user: User)
        ensures
            final(self)@ == old(self)@.insert(user@.id, user@),
    {
        let ghost pre = self.users@;
        let ghost uv = user@;
        let id = user.id.clone();
        self.users.insert(id, user);
        proof {
            assert(self.users@.map_values(|u: User| u@) =~= pre.map_values(
                |u: User| u@,
            ).insert(uv.id, uv));
        }
    }
}

/// Builds display-ready chats and messages from wire records, given the
/// current user and a user directory.
pub struct ChatBuilder {
    pub current_user: Option<User>,
    pub user_provider: UserProvider,
}

/// What enriching one message means: the sender id resolved to a username
/// through the directory, everything else carried over.
pub open spec fn spec_build_message(
    m: MessageModelView,
    dir: Map<Seq<char>, UserView>,
) -> MessageView {
    MessageView {
        chat_id: m.chat_id,
        sender_username: dir[m.sender_id].username,
        text: m.text,
        created_at: m.created_at,
        is_read: m.is_read,
    }
}

/// The most recent message of a record: the one with the greatest timestamp,
/// later entries winning ties.
pub open spec fn most_recent(ms: Seq<MessageModelView>) -> Option<MessageModelView>
    decreases ms.len(),
{
    if ms.len() == 0 {
        None
    } else {
        match most_recent(ms.drop_last()) {
            None => Some(ms.last()),
            Some(best) => if ms.last().created_at >= best.created_at {
                Some(ms.last())
            } else {
                Some(best)
            },
        }
    }
}

/// The most recent message of a record is one of its messages.
pub proof fn lemma_most_recent_in(ms: Seq<MessageModelView>)
    ensures
        match most_recent(ms) {
            Some(b) => exists|i: int| 0 <= i < ms.len() && ms[i] == b,
            None => ms.len() == 0,
        },
    decreases ms.len(),
{
    if ms.len() > 0 {
        lemma_most_recent_in(ms.drop_last());
        match most_recent(ms) {
            Some(b) => {
                if b == ms.last() {
                    assert(ms[ms.len() - 1] == b);
                } else {
                    let i = choose|i: int|
                        0 <= i < ms.drop_last().len() && ms.drop_last()[i] == b;
                    assert(ms[i] == b);
                }
            },
            None => {},
        }
    }
}

/// How many messages of a record are unread.
pub open spec fn count_unread(ms: Seq<MessageModelView>) -> nat
    decreases ms.len(),
{
    if ms.len() == 0 {
        0
    } else {
        count_unread(ms.drop_last()) + if ms.last().is_read {
            0nat
        } else {
            1nat
        }
    }
}

/// A count clipped to the `u32` range.
pub open spec fn sat32(n: int) -> u32 {
    if n > u32::MAX {
        u32::MAX as u32
    } else if n < 0 {
        0u32
    } else {
        n as u32
    }
}

/// The name a chat resolves to: its explicit name if it has one, else the
/// username of the member that is not the current user (such a chat has
/// exactly two members).
pub open spec fn spec_chat_name(
    m: ChatModelView,
    dir: Map<Seq<char>, UserView>,
    cur: Option<UserView>,
) -> Seq<char> {
    match m.name {
        Some(n) => n,
        None => if m.member_ids[0] != cur.unwrap().id {
            dir[m.member_ids[0]].username
        } else {
            dir[m.member_ids[1]].username
        },
    }
}

/// A record that the builder accepts: a named chat, or a two-member chat of
/// which at least one member is not the current user.
pub open spec fn nameable(m: ChatModelView, cur: Option<UserView>) -> bool {
    match m.name {
        Some(_) => true,
        None => m.member_ids.len() == 2 && cur is Some && (m.member_ids[0] != cur.unwrap().id
            || m.member_ids[1] != cur.unwrap().id),
    }
}

/// What building one chat means: members resolved in order, the name per the
/// two-member rule, the last message the most recent record, the unread count
/// the number of unread records.
pub open spec fn spec_build_chat(
    m: ChatModelView,
    dir: Map<Seq<char>, UserView>,
    cur: Option<UserView>,
) -> ChatView {
    ChatView {
        internal_id: spec_dec(m.id as nat),
        id: Some(m.id),
        name: spec_chat_name(m, dir, cur),
        members: m.member_ids.map_values(|id: Seq<char>| dir[id]),
        last_message: match most_recent(m.messages) {
            Some(best) => Some(spec_build_message(best, dir)),
            None => None,
        },
        number_of_unread_messages: sat32(count_unread(m.messages) as int),
    }
}

impl ChatBuilder {
    /// A builder over the given directory, enriching for the given user.
    pub fn new(current_user: Option<User>, username_provider: UserProvider) -> (r: Self)
        ensures
            r.user_provider@ == username_provider@,
            match (r.current_user, current_user) {
                (Some(a), Some(b)) => a@ == b@,
                (None, None) => true,
                _ => false,
            },
    {
        ChatBuilder { current_user, user_provider: username_provider }
    }

    /// Extends the directory; chats already built keep the users they were
    /// built with.
    pub fn add_users(&mut self, users: Vec<User>)
        ensures
            final(self).user_provider@ == with_users(
                old(self).user_provider@,
                users@.map_values(|u: User| u@),
            ),
            final(self).current_user == old(self).current_user,
    {
        let ghost target = users@.map_values(|u: User| u@);
        let ghost dir0 = self.user_provider@;
        for i in 0..users.len()
            invariant
                self.user_provider@ == with_users(dir0, target.take(i as int)),
                self.current_user == old(self).current_user,
                target == users@.map_values(|u: User| u@),
        {
            let user = users[i].duplicate();
            self.user_provider.insert_user(user);
            proof {
                assert(target.take(i + 1).drop_last() =~= target.take(i as int));
                assert(target.take(i + 1).last() == users@[i as int]@);
            }
        }
        proof {
            assert(target.take(users@.len() as int) =~= target);
        }
    }

    /// Enriches one message.
    pub fn build_message_from_model(&self, message_model: MessageModel) -> (r: Message)
        requires
            self.user_provider@.contains_key(message_model.sender_id@),
        ensures
            r@ == spec_build_message(message_model@, self.user_provider@),
    {
        let sender = self.user_provider.get_user(message_model.sender_id.as_str());
        Message {
            chat_id: message_model.chat_id,
            sender_username: sender.username,
            text: message_model.text,
            created_at: message_model.created_at,
            is_read: message_model.is_read,
        }
    }

    /// The name the given record resolves to.
    fn get_chat_name(&self, chat_model: &ChatModel) -> (r: String)
        requires
            nameable(chat_model@, self.spec_current()),
            chat_model@.name is None ==> self.user_provider@.contains_key(
                chat_model@.member_ids[0],
            ) && self.user_provider@.contains_key(chat_model@.member_ids[1]),
        ensures
            r@ == spec_chat_name(chat_model@, self.user_provider@, self.spec_current()),
    {
        match &chat_model.name {
            Some(name) => name.clone(),
            None => {
                let cur = self.current_user.as_ref().unwrap();
                let first = &chat_model.member_ids[0];
                let other = if !equal_strings(first, &cur.id) {
                    &chat_model.member_ids[0]
                } else {
                    &chat_model.member_ids[1]
                };
                self.user_provider.get_user(other.as_str()).username
            },
        }
    }

    /// The current user's view, if one is set.
    pub open spec fn spec_current(&self) -> Option<UserView> {
        match self.current_user {
            Some(u) => Some(u@),
            None => None,
        }
    }

    /// Enriches one chat record.
    pub fn build_chat_from_model(&self, chat_model: ChatModel) -> (r: Chat)
        requires
            nameable(chat_model@, self.spec_current()),
            forall|i: int|
                0 <= i < chat_model@.member_ids.len() ==> self.user_provider@.contains_key(
                    #[trigger] chat_model@.member_ids[i],
                ),
            forall|i: int|
                0 <= i < chat_model@.messages.len() ==> self.user_provider@.contains_key(
                    (#[trigger] chat_model@.messages[i]).sender_id,
                ),
        ensures
            r@ == spec_build_chat(chat_model@, self.user_provider@, self.spec_current()),
    {
        let name = self.get_chat_name(&chat_model);
        let mut members: Vec<User> = Vec::new();
        let ghost dir = self.user_provider@;
        let ghost ids = chat_model@.member_ids;
        for i in 0..chat_model.member_ids.len()
            invariant
                members@.map_values(|u: User| u@) =~= ids.take(i as int).map_values(
                    |id: Seq<char>| dir[id],
                ),
                ids == chat_model@.member_ids,
                dir == self.user_provider@,
                forall|j: int| 0 <= j < ids.len() ==> dir.contains_key(#[trigger] ids[j]),
        {
            proof {
                assert(dir.contains_key(ids[i as int]));
                assert(ids[i as int] == chat_model.member_ids@[i as int]@);
            }
            members.push(self.user_provider.get_user(chat_model.member_ids[i].as_str()));
            proof {
                assert(ids.take(i + 1).map_values(|id: Seq<char>| dir[id]) =~= ids.take(
                    i as int,
                ).map_values(|id: Seq<char>| dir[id]).push(dir[ids[i as int]]));
            }
        }
        let last_model = most_recent_message(&chat_model.messages);
        proof {
            lemma_most_recent_in(chat_model@.messages);
        }
        let last_message = match last_model {
            Some(m) => Some(self.build_message_from_model(m)),
            None => None,
        };
        let unread = count_unread_messages(&chat_model.messages);
        proof {
            assert(ids.take(ids.len() as int) =~= ids);
            assert(members@.map_values(|u: User| u@) =~= ids.map_values(
                |id: Seq<char>| dir[id],
            ));
        }
        Chat {
            internal_id: u32_to_dec_string(chat_model.id),
            id: Some(chat_model.id),
            name,
            members,
            last_message,
            number_of_unread_messages: unread,
        }
    }

    /// Enriches a batch of chat records, in order.
    pub fn build_chats_from_models(&self, chat_models: Vec<ChatModel>) -> (r: Vec<Chat>)
        requires
            forall|c: int|
                0 <= c < chat_models@.len() ==> nameable(
                    (#[trigger] chat_models@[c])@,
                    self.spec_current(),
                ),
            forall|c: int, i: int|
                0 <= c < chat_models@.len() && 0 <= i < chat_models@[c]@.member_ids.len()
                    ==> self.user_provider@.contains_key(
                    #[trigger] chat_models@[c]@.member_ids[i],
                ),
            forall|c: int, i: int|
                0 <= c < chat_models@.len() && 0 <= i < chat_models@[c]@.messages.len()
                    ==> self.user_provider@.contains_key(
                    (#[trigger] chat_models@[c]@.messages[i]).sender_id,
                ),
        ensures
            r@.len() == chat_models@.len(),
            forall|c: int|
                0 <= c < r@.len() ==> (#[trigger] r@[c])@ == spec_build_chat(
                    chat_models@[c]@,
                    self.user_provider@,
                    self.spec_current(),
                ),
    {
        let mut out: Vec<Chat> = Vec::new();
        let mut models = chat_models;
        let ghost all = models@;
        let bound = models.len();
        proof {
            assert(all.len() == bound);
        }
        let mut k: usize = 0;
        while models.len() > 0
            invariant
                out@.len() == k,
                all.len() <= usize::MAX,
                k + models@.len() == all.len(),
                models@ =~= all.skip(k as int),
                forall|c: int|
                    0 <= c < k ==> (#[trigger] out@[c])@ == spec_build_chat(
                        all[c]@,
                        self.user_provider@,
                        self.spec_current(),
                    ),
                forall|c: int|
                    0 <= c < all.len() ==> nameable((#[trigger] all[c])@, self.spec_current()),
                forall|c: int, i: int|
                    0 <= c < all.len() && 0 <= i < all[c]@.member_ids.len()
                        ==> self.user_provider@.contains_key(#[trigger] all[c]@.member_ids[i]),
                forall|c: int, i: int|
                    0 <= c < all.len() && 0 <= i < all[c]@.messages.len()
                        ==> self.user_provider@.contains_key(
                        (#[trigger] all[c]@.messages[i]).sender_id,
                    ),
            decreases models@.len(),
        {
            let model = models.remove(0);
            proof {
                assert(model == all[k as int]);
            }
            out.push(self.build_chat_from_model(model));
            k = k + 1;
            proof {
                assert(models@ =~= all.skip(k as int));
            }
        }
        out
    }

    /// Enriches per-chat batches of message records, in order.
    pub fn build_messages_from_models(&self, message_models: Vec<(ChatId, Vec<MessageModel>)>)
        -> (r: Vec<(ChatId, Vec<Message>)>)
        requires
            forall|b: int, i: int|
                0 <= b < message_models@.len() && 0 <= i < message_models@[b].1@.len()
                    ==> self.user_provider@.contains_key(
                    (#[trigger] message_models@[b].1@[i])@.sender_id,
                ),
        ensures
            r@.len() == message_models@.len(),
            forall|b: int|
                0 <= b < r@.len() ==> (#[trigger] r@[b]).0 == message_models@[b].0,
            forall|b: int, i: int|
                0 <= b < r@.len() && 0 <= i < r@[b].1@.len() ==> (#[trigger] r@[b].1@[i])@
                    == spec_build_message(message_models@[b].1@[i]@, self.user_provider@)
                    && r@[b].1@.len() == message_models@[b].1@.len(),
    {
        let mut out: Vec<(ChatId, Vec<Message>)> = Vec::new();
        let mut batches = message_models;
        let ghost all = batches@;
        let bound = batches.len();
        proof {
            assert(all.len() == bound);
        }
        let mut k: usize = 0;
        while batches.len() > 0
            invariant
                out@.len() == k,
                all.len() <= usize::MAX,
                k + batches@.len() == all.len(),
                batches@ =~= all.skip(k as int),
                forall|b: int| 0 <= b < k ==> (#[trigger] out@[b]).0 == all[b].0,
                forall|b: int, i: int|
                    0 <= b < k && 0 <= i < out@[b].1@.len() ==> (#[trigger] out@[b].1@[i])@
                        == spec_build_message(all[b].1@[i]@, self.user_provider@)
                        && out@[b].1@.len() == all[b].1@.len(),
                forall|b: int, i: int|
                    0 <= b < all.len() && 0 <= i < all[b].1@.len()
                        ==> self.user_provider@.contains_key(
                        (#[trigger] all[b].1@[i])@.sender_id,
                    ),
            decreases batches@.len(),
        {
            let (chat_id, models) = batches.remove(0);
            proof {
                assert((chat_id, models) == all[k as int]);
            }
            let mut msgs: Vec<Message> = Vec::new();
            let mut ms = models;
            let ghost batch = ms@;
            let inner_bound = ms.len();
            proof {
                assert(batch.len() == inner_bound);
            }
            let mut j: usize = 0;
            while ms.len() > 0
                invariant
                    msgs@.len() == j,
                    batch.len() <= usize::MAX,
                    j + ms@.len() == batch.len(),
                    ms@ =~= batch.skip(j as int),
                    batch == all[k as int].1@,
                    k < all.len(),
                    forall|i: int|
                        0 <= i < j ==> (#[trigger] msgs@[i])@ == spec_build_message(
                            batch[i]@,
                            self.user_provider@,
                        ),
                    forall|i: int|
                        0 <= i < batch.len() ==> self.user_provider@.contains_key(
                            (#[trigger] batch[i])@.sender_id,
                        ),
                decreases ms@.len(),
            {
                let m = ms.remove(0);
                proof {
                    assert(m == batch[j as int]);
                }
                msgs.push(self.build_message_from_model(m));
                j = j + 1;
                proof {
                    assert(ms@ =~= batch.skip(j as int));
                }
            }
            out.push((chat_id, msgs));
            k = k + 1;
            proof {
                assert(batches@ =~= all.skip(k as int));
            }
        }
        out
    }
}

/// After building with a fully populated directory, reading the member ids
/// back off the built chat reproduces the record's member id list exactly.
pub proof fn lemma_build_chat_member_ids(
    m: ChatModelView,
    dir: Map<Seq<char>, UserView>,
    cur: Option<UserView>,
)
    requires
        directory_wf(dir),
        forall|i: int| 0 <= i < m.member_ids.len() ==> dir.contains_key(#[trigger] m.member_ids[i]),
    ensures
        spec_build_chat(m, dir, cur).members.map_values(|u: UserView| u.id) =~= m.member_ids,
{
    let built = spec_build_chat(m, dir, cur).members.map_values(|u: UserView| u.id);
    assert forall|i: int| 0 <= i < m.member_ids.len() implies built[i] == m.member_ids[i] by {
        assert(dir.contains_key(m.member_ids[i]));
    }
}

/// The most recent record of a batch, later entries winning ties.
pub fn most_recent_message(ms: &Vec<MessageModel>) -> (r: Option<MessageModel>)
    ensures
        match (r, most_recent(ms@.map_values(|m: MessageModel| m@))) {
            (Some(a), Some(b)) => a@ == b,
            (None, None) => true,
            _ => false,
        },
{
    let ghost views = ms@.map_values(|m: MessageModel| m@);
    let mut best: Option<MessageModel> = None;
    for i in 0..ms.len()
        invariant
            views == ms@.map_values(|m: MessageModel| m@),
            match (best, most_recent(views.take(i as int))) {
                (Some(a), Some(b)) => a@ == b,
                (None, None) => true,
                _ => false,
            },
    {
        let take_it = match &best {
            None => true,
            Some(b) => ms[i].created_at >= b.created_at,
        };
        if take_it {
            best = Some(ms[i].duplicate());
        }
        proof {
            assert(views.take(i + 1).drop_last() =~= views.take(i as int));
            assert(views.take(i + 1).last() == views[i as int]);
        }
    }
    proof {
        assert(views.take(views.len() as int) =~= views);
    }
    best
}

/// How many records of a batch are unread, clipped to `u32`.
pub fn count_unread_messages(ms: &Vec<MessageModel>) -> (r: u32)
    ensures
        r == sat32(count_unread(ms@.map_values(|m: MessageModel| m@)) as int),
{
    let ghost views = ms@.map_values(|m: MessageModel| m@);
    let mut count: u32 = 0;
    for i in 0..ms.len()
        invariant
            views == ms@.map_values(|m: MessageModel| m@),
            count == sat32(count_unread(views.take(i as int)) as int),
    {
        if !ms[i].is_read {
            if count < u32::MAX {
                count = count + 1;
            }
        }
        proof {
            assert(views.take(i + 1).drop_last() =~= views.take(i as int));
            assert(views.take(i + 1).last() == views[i as int]);
        }
    }
    proof {
        assert(views.take(views.len() as int) =~= views);
    }
    count
}

} // verus!
