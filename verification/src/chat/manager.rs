//! Ownership of the ordered chat list, the per-chat message buffers, the
//! transient search-result overlay, and the loaded/selected pointers.
//!
//! The primary list stays sorted by recency after every mutation that can
//! change a last-message timestamp, and its id-to-position lookup always
//! matches the item positions. The search overlay is a separate collection:
//! it never merges into the primary list, and "active chats" is the overlay
//! exactly while it is non-empty.

use vstd::prelude::*;
use vstd::hash_map::HashMapWithView;
use crate::chat::builder::sat32;
use crate::chat::{rank, Chat, Message, MessageView};
use crate::helpers::digits::{spec_dec, u32_to_dec_string};
use crate::helpers::equal_strings;
use crate::helpers::list::{
    has_id, id_index, sort_ranked, sorted_by_rank, unique_ids, StatefulOrderedList,
};
use crate::helpers::types::ChatId;

verus! {

/// How many of these messages are unread.
pub open spec fn count_unread_views(ms: Seq<MessageView>) -> nat
    decreases ms.len(),
{
    if ms.len() == 0 {
        0
    } else {
        count_unread_views(ms.drop_last()) + if ms.last().is_read {
            0nat
        } else {
            1nat
        }
    }
}

proof fn lemma_count_unread_views_le(ms: Seq<MessageView>)
    ensures
        count_unread_views(ms) <= ms.len(),
    decreases ms.len(),
{
    if ms.len() > 0 {
        lemma_count_unread_views_le(ms.drop_last());
    }
}

/// How many messages of this batch are unread.
fn count_unread_batch(ms: &Vec<Message>) -> (r: usize)
    ensures
        r == count_unread_views(ms@.map_values(|m: Message| m@)),
{
    let ghost views = ms@.map_values(|m: Message| m@);
    proof {
        lemma_count_unread_views_le(views);
    }
    let mut count: usize = 0;
    for i in 0..ms.len()
        invariant
            views == ms@.map_values(|m: Message| m@),
            count == count_unread_views(views.take(i as int)),
            count <= i,
    {
        proof {
            assert(views.take(i + 1).drop_last() =~= views.take(i as int));
            assert(views.take(i + 1).last() == views[i as int]);
            lemma_count_unread_views_le(views.take(i + 1));
            assert(views.take(i + 1).len() == i + 1);
        }
        if !ms[i].is_read {
            count = count + 1;
        }
    }
    proof {
        assert(views.take(views.len() as int) =~= views);
    }
    count
}

/// Adds a count to an unread counter, clipping at the `u32` range.
fn saturating_bump(u: u32, extra: usize) -> (r: u32)
    ensures
        r == sat32(u + extra),
{
    if extra >= (u32::MAX - u) as usize {
        u32::MAX
    } else {
        u + (extra as u32)
    }
}

/// The chat list, message buffers, search overlay and the loaded pointer.
pub struct ChatManager {
    pub chats: StatefulOrderedList,
    pub messages: HashMapWithView<ChatId, Vec<Message>>,
    pub search_results: StatefulOrderedList,
    pub loaded_internal_chat_id: Option<String>,
}

/// A chat the primary list accepts: created on the server, its stable key the
/// decimal text of its server id.
pub open spec fn server_keyed(c: Chat) -> bool {
    c@.id is Some && c@.internal_id == spec_dec(c@.id.unwrap() as nat)
}

/// The buffers seen mathematically: chat id to the views of its messages.
pub open spec fn buffers_of(m: Map<ChatId, Vec<Message>>) -> Map<ChatId, Seq<MessageView>> {
    m.map_values(|v: Vec<Message>| v@.map_values(|msg: Message| msg@))
}

/// The message buffers after installing one buffer per entry, keyed by the
/// entry's chat id.
pub open spec fn with_message_buffers(
    b: Map<ChatId, Seq<MessageView>>,
    entries: Seq<(ChatId, Seq<MessageView>)>,
) -> Map<ChatId, Seq<MessageView>>
    decreases entries.len(),
{
    if entries.len() == 0 {
        b
    } else {
        with_message_buffers(b, entries.drop_last()).insert(
            entries.last().0,
            entries.last().1,
        )
    }
}

/// The message buffers that adding empty buffers for these chats leaves.
pub open spec fn with_empty_buffers(
    b: Map<ChatId, Seq<MessageView>>,
    cs: Seq<Chat>,
) -> Map<ChatId, Seq<MessageView>>
    decreases cs.len(),
{
    if cs.len() == 0 {
        b
    } else {
        with_empty_buffers(b, cs.drop_last()).insert(
            cs.last()@.id.unwrap(),
            Seq::<MessageView>::empty(),
        )
    }
}

impl ChatManager {
    /// Whether the search overlay is active.
    pub open spec fn searching(self) -> bool {
        self.search_results.items@.len() > 0
    }

    /// The items of the active collection: the overlay while it is non-empty,
    /// else the primary list.
    pub open spec fn active_items(self) -> Seq<Chat> {
        if self.searching() {
            self.search_results.items@
        } else {
            self.chats.items@
        }
    }

    /// The message buffers, mathematically.
    pub open spec fn buffers(self) -> Map<ChatId, Seq<MessageView>> {
        buffers_of(self.messages@)
    }

    /// Whether the loaded pointer names this key.
    pub open spec fn loaded_is(self, key: Seq<char>) -> bool {
        match self.loaded_internal_chat_id {
            Some(l) => l@ == key,
            None => false,
        }
    }

    /// Every primary-list chat is server-keyed and has a message buffer.
    pub open spec fn chats_keyed(self) -> bool {
        forall|i: int|
            0 <= i < self.chats.items@.len() ==> server_keyed(#[trigger] self.chats.items@[i])
                && self.messages@.contains_key(self.chats.items@[i]@.id.unwrap())
    }

    /// Well-formed: both collections consistent, the primary list keyed to the
    /// buffers.
    pub open spec fn wf(self) -> bool {
        &&& self.chats.wf()
        &&& self.search_results.wf()
        &&& self.chats_keyed()
    }

    /// An empty manager: browsing mode, nothing loaded.
    pub fn new() -> (r: Self)
        ensures
            r.wf(),
            r.chats.items@ =~= Seq::<Chat>::empty(),
            r.search_results.items@ =~= Seq::<Chat>::empty(),
            r.loaded_internal_chat_id is None,
            r.messages@ =~= Map::<ChatId, Vec<Message>>::empty(),
    {
        ChatManager {
            chats: StatefulOrderedList::new(),
            messages: HashMapWithView::new(),
            search_results: StatefulOrderedList::new(),
            loaded_internal_chat_id: None,
        }
    }

    /// Whether the primary list holds the chat with this server id.
    pub fn has_chat(&self, chat_id: &ChatId) -> (r: bool)
        requires
            self.wf(),
        ensures
            r == has_id(self.chats.items@, spec_dec(*chat_id as nat)),
    {
        let key = u32_to_dec_string(*chat_id);
        self.chats.contains(key.as_str())
    }

    /// Inserts chats into the primary list, re-sorts it, rebuilds the lookup,
    /// and opens an empty message buffer for each.
    pub fn add_chats(&mut self, chats: Vec<Chat>)
        requires
            old(self).wf(),
            unique_ids(old(self).chats.items@ + chats@),
            forall|i: int| 0 <= i < chats@.len() ==> server_keyed(#[trigger] chats@[i]),
        ensures
            final(self).wf(),
            final(self).chats.items@ == sort_ranked(old(self).chats.items@ + chats@),
            sorted_by_rank(final(self).chats.items@),
            final(self).buffers() == with_empty_buffers(old(self).buffers(), chats@),
            final(self).search_results == old(self).search_results,
            final(self).loaded_internal_chat_id == old(self).loaded_internal_chat_id,
            final(self).chats.selected_item_id == old(self).chats.selected_item_id,
    {
        let ghost incoming = chats@;
        let ghost bufs0 = self.buffers();
        for i in 0..chats.len()
            invariant
                incoming == chats@,
                self.buffers() == with_empty_buffers(bufs0, incoming.take(i as int)),
                forall|k: ChatId|
                    old(self).messages@.contains_key(k) ==> #[trigger] self.messages@.contains_key(
                        k,
                    ),
                forall|t: int|
                    0 <= t < i ==> self.messages@.contains_key(
                        (#[trigger] incoming[t])@.id.unwrap(),
                    ),
                forall|t: int| 0 <= t < incoming.len() ==> server_keyed(#[trigger] incoming[t]),
                self.chats == old(self).chats,
                self.search_results == old(self).search_results,
                self.loaded_internal_chat_id == old(self).loaded_internal_chat_id,
        {
            let cid = chats[i].id.unwrap();
            let ghost pre = self.messages@;
            self.messages.insert(cid, Vec::new());
            proof {
                assert(incoming.take(i + 1).drop_last() =~= incoming.take(i as int));
                assert(incoming.take(i + 1).last() == incoming[i as int]);
                assert(buffers_of(self.messages@) =~~= buffers_of(pre).insert(
                    incoming[i as int]@.id.unwrap(),
                    Seq::<MessageView>::empty(),
                ));
            }
        }
        proof {
            assert(incoming.take(incoming.len() as int) =~= incoming);
        }
        self.chats.extend(chats);
        proof {
            crate::helpers::list::lemma_sort_ranked_elems(old(self).chats.items@ + incoming);
            assert forall|i: int| 0 <= i < self.chats.items@.len() implies server_keyed(
                #[trigger] self.chats.items@[i],
            ) && self.messages@.contains_key(self.chats.items@[i]@.id.unwrap()) by {
                let j = choose|j: int|
                    0 <= j < (old(self).chats.items@ + incoming).len() && (old(self).chats.items@
                        + incoming)[j] == self.chats.items@[i];
                if j < old(self).chats.items@.len() {
                    assert((old(self).chats.items@ + incoming)[j] == old(self).chats.items@[j]);
                } else {
                    assert((old(self).chats.items@ + incoming)[j] == incoming[j - old(self).chats.items@.len()]);
                }
            }
        }
    }

    /// Inserts one chat into the primary list, re-sorts it, and opens its
    /// empty message buffer.
    pub fn add_chat(&mut self, chat: Chat)
        requires
            old(self).wf(),
            server_keyed(chat),
            !has_id(old(self).chats.items@, chat@.internal_id),
        ensures
            final(self).wf(),
            final(self).chats.items@ == sort_ranked(old(self).chats.items@.push(chat)),
            sorted_by_rank(final(self).chats.items@),
            final(self).buffers() == old(self).buffers().insert(
                chat@.id.unwrap(),
                Seq::<MessageView>::empty(),
            ),
            final(self).search_results == old(self).search_results,
            final(self).loaded_internal_chat_id == old(self).loaded_internal_chat_id,
            final(self).chats.selected_item_id == old(self).chats.selected_item_id,
    {
        let cid = chat.id.unwrap();
        let ghost pre = self.messages@;
        self.messages.insert(cid, Vec::new());
        proof {
            assert(buffers_of(self.messages@) =~~= buffers_of(pre).insert(
                chat@.id.unwrap(),
                Seq::<MessageView>::empty(),
            ));
        }
        let ghost before = self.chats.items@;
        self.chats.push(chat);
        proof {
            crate::helpers::list::lemma_sort_ranked_elems(before.push(chat));
            assert forall|i: int| 0 <= i < self.chats.items@.len() implies server_keyed(
                #[trigger] self.chats.items@[i],
            ) && self.messages@.contains_key(self.chats.items@[i]@.id.unwrap()) by {
                let j = choose|j: int|
                    0 <= j < before.push(chat).len() && before.push(chat)[j]
                        == self.chats.items@[i];
                if j < before.len() {
                    assert(before.push(chat)[j] == before[j]);
                } else {
                    assert(before.push(chat)[j] == chat);
                }
            }
        }
    }

    /// Installs chats together with their message buffers: each chat enters
    /// the primary list carrying its own unread count, its buffer holds
    /// exactly the given messages, and the list is re-sorted. Unlike the bulk
    /// message load, nothing is added to the unread counters.
    pub fn install_chats(&mut self, entries: Vec<(Chat, Vec<Message>)>)
        requires
            old(self).wf(),
            forall|i: int| 0 <= i < entries@.len() ==> server_keyed((#[trigger] entries@[i]).0),
            unique_ids(
                old(self).chats.items@ + entries@.map_values(|e: (Chat, Vec<Message>)| e.0),
            ),
        ensures
            final(self).wf(),
            final(self).chats.items@ == sort_ranked(
                old(self).chats.items@ + entries@.map_values(|e: (Chat, Vec<Message>)| e.0),
            ),
            sorted_by_rank(final(self).chats.items@),
            final(self).buffers() == with_message_buffers(
                old(self).buffers(),
                entries@.map_values(
                    |e: (Chat, Vec<Message>)|
                        (e.0@.id.unwrap(), e.1@.map_values(|m: Message| m@)),
                ),
            ),
            final(self).search_results == old(self).search_results,
            final(self).loaded_internal_chat_id == old(self).loaded_internal_chat_id,
            final(self).chats.selected_item_id == old(self).chats.selected_item_id,
    {
        let ghost all = entries@;
        let ghost bufs0 = self.buffers();
        let ghost pairs = all.map_values(
            |e: (Chat, Vec<Message>)| (e.0@.id.unwrap(), e.1@.map_values(|m: Message| m@)),
        );
        let mut remaining = entries;
        let mut chats: Vec<Chat> = Vec::new();
        let total = remaining.len();
        proof {
            assert(pairs.take(0) =~= Seq::<(ChatId, Seq<MessageView>)>::empty());
            assert(chats@ =~= all.map_values(|e: (Chat, Vec<Message>)| e.0).take(0));
        }
        let mut k: usize = 0;
        while k < total
            invariant
                total == all.len(),
                all.len() <= usize::MAX,
                k <= total,
                remaining@ =~= all.skip(k as int),
                chats@ =~= all.map_values(|e: (Chat, Vec<Message>)| e.0).take(k as int),
                pairs == all.map_values(
                    |e: (Chat, Vec<Message>)|
                        (e.0@.id.unwrap(), e.1@.map_values(|m: Message| m@)),
                ),
                self.buffers() == with_message_buffers(bufs0, pairs.take(k as int)),
                forall|key: ChatId|
                    old(self).messages@.contains_key(key)
                        ==> #[trigger] self.messages@.contains_key(key),
                forall|t: int|
                    0 <= t < k ==> self.messages@.contains_key(
                        (#[trigger] all[t]).0@.id.unwrap(),
                    ),
                forall|i: int| 0 <= i < all.len() ==> server_keyed((#[trigger] all[i]).0),
                self.chats == old(self).chats,
                self.search_results == old(self).search_results,
                self.loaded_internal_chat_id == old(self).loaded_internal_chat_id,
            decreases total - k,
        {
            let (chat, msgs) = remaining.remove(0);
            proof {
                assert((chat, msgs) == all[k as int]);
            }
            let ghost views = msgs@.map_values(|m: Message| m@);
            let cid = chat.id.unwrap();
            let ghost pre = self.messages@;
            self.messages.insert(cid, msgs);
            chats.push(chat);
            proof {
                assert(buffers_of(self.messages@) =~~= buffers_of(pre).insert(cid, views));
                assert(pairs.take(k + 1).drop_last() =~= pairs.take(k as int));
                assert(pairs.take(k + 1).last() == pairs[k as int]);
                assert(pairs[k as int] == (cid, views));
                assert(self.buffers() =~~= with_message_buffers(bufs0, pairs.take(k + 1)));
                assert(chats@ =~= all.map_values(|e: (Chat, Vec<Message>)| e.0).take(k + 1));
            }
            k = k + 1;
            proof {
                assert(remaining@ =~= all.skip(k as int));
            }
        }
        proof {
            assert(pairs.take(total as int) =~= pairs);
            assert(all.map_values(|e: (Chat, Vec<Message>)| e.0).take(total as int)
                =~= all.map_values(|e: (Chat, Vec<Message>)| e.0));
            if old(self).chats.selected_item_id is Some {
                let id = old(self).chats.selected_item_id.unwrap()@;
                let i = choose|i: int|
                    0 <= i < old(self).chats.items@.len() && old(
                        self,
                    ).chats.items@[i]@.internal_id == id;
                assert((old(self).chats.items@ + all.map_values(
                    |e: (Chat, Vec<Message>)| e.0,
                ))[i]@.internal_id == id);
            }
        }
        let ghost mapped = all.map_values(|e: (Chat, Vec<Message>)| e.0);
        self.chats.extend(chats);
        proof {
            crate::helpers::list::lemma_sort_ranked_elems(old(self).chats.items@ + mapped);
            assert forall|i: int| 0 <= i < self.chats.items@.len() implies server_keyed(
                #[trigger] self.chats.items@[i],
            ) && self.messages@.contains_key(self.chats.items@[i]@.id.unwrap()) by {
                let j = choose|j: int|
                    0 <= j < (old(self).chats.items@ + mapped).len() && (old(self).chats.items@
                        + mapped)[j] == self.chats.items@[i];
                if j < old(self).chats.items@.len() {
                    assert((old(self).chats.items@ + mapped)[j] == old(self).chats.items@[j]);
                } else {
                    assert((old(self).chats.items@ + mapped)[j] == mapped[j - old(
                        self,
                    ).chats.items@.len()]);
                    assert(mapped[j - old(self).chats.items@.len()] == all[j - old(
                        self,
                    ).chats.items@.len()].0);
                }
            }
        }
    }

    /// Applies per-chat message batches: each batch appended to its chat's
    /// buffer and that chat's unread counter raised by the batch's unread
    /// count. Used for the initial bulk load.
    pub fn add_messages(&mut self, messages: Vec<(ChatId, Vec<Message>)>)
        requires
            old(self).wf(),
            forall|b: int|
                0 <= b < messages@.len() ==> has_id(
                    old(self).chats.items@,
                    spec_dec((#[trigger] messages@[b]).0 as nat),
                ) && old(self).messages@.contains_key(messages@[b].0),
        ensures
            final(self).wf(),
            ({
                let bs = messages@.map_values(
                    |b: (ChatId, Vec<Message>)| (b.0, b.1@.map_values(|m: Message| m@)),
                );
                let r = apply_batches(old(self).chats.items@, old(self).buffers(), bs);
                final(self).chats.items@ == r.0 && final(self).buffers() == r.1
            }),
            final(self).search_results == old(self).search_results,
            final(self).loaded_internal_chat_id == old(self).loaded_internal_chat_id,
            final(self).chats.selected_item_id == old(self).chats.selected_item_id,
    {
        let ghost bs = messages@.map_values(
            |b: (ChatId, Vec<Message>)| (b.0, b.1@.map_values(|m: Message| m@)),
        );
        let ghost cs0 = self.chats.items@;
        let ghost bufs0 = self.buffers();
        let mut batches = messages;
        let total = batches.len();
        let mut k: usize = 0;
        proof {
            assert(bs.take(0) =~= Seq::<(ChatId, Seq<MessageView>)>::empty());
        }
        while k < total
            invariant
                total == bs.len(),
                bs.len() <= usize::MAX,
                k <= total,
                batches@.len() == total - k,
                forall|b: int|
                    0 <= b < batches@.len() ==> (#[trigger] batches@[b]).0 == bs[b + k].0
                        && batches@[b].1@.map_values(|m: Message| m@) == bs[b + k].1,
                self.chats.items@ == apply_batches(cs0, bufs0, bs.take(k as int)).0,
                self.buffers() == apply_batches(cs0, bufs0, bs.take(k as int)).1,
                self.wf(),
                forall|b: int|
                    0 <= b < bs.len() ==> has_id(
                        self.chats.items@,
                        spec_dec((#[trigger] bs[b]).0 as nat),
                    ) && self.messages@.contains_key(bs[b].0),
                self.search_results == old(self).search_results,
                self.loaded_internal_chat_id == old(self).loaded_internal_chat_id,
                self.chats.selected_item_id == old(self).chats.selected_item_id,
            decreases total - k,
        {
            let (cid, msgs) = batches.remove(0);
            let ghost views = msgs@.map_values(|m: Message| m@);
            proof {
                assert(views == bs[k as int].1 && cid == bs[k as int].0);
            }
            let key = u32_to_dec_string(cid);
            let count = count_unread_batch(&msgs);
            let current = self.chats.get(&key).number_of_unread_messages;
            let raised = saturating_bump(current, count);
            let ghost cs1 = self.chats.items@;
            let ghost w = id_index(cs1, key@);
            self.chats.set_unread(&key, raised);
            let ghost cs2 = self.chats.items@;
            proof {
                assert forall|i: int| 0 <= i < cs2.len() implies (#[trigger] cs2[i])@.internal_id
                    == cs1[i]@.internal_id && cs2[i]@.id == cs1[i]@.id by {
                    if i != w {
                        assert(cs2[i] == cs1[i]);
                    }
                }
                assert forall|id: Seq<char>| #[trigger] has_id(cs2, id) == has_id(cs1, id) by {
                    if has_id(cs1, id) {
                        let i = choose|i: int| 0 <= i < cs1.len() && cs1[i]@.internal_id == id;
                        assert(cs2[i]@.internal_id == id);
                    }
                    if has_id(cs2, id) {
                        let i = choose|i: int| 0 <= i < cs2.len() && cs2[i]@.internal_id == id;
                        assert(cs1[i]@.internal_id == id);
                    }
                }
            }
            let ghost m1 = self.messages@;
            let ghost bufs1 = self.buffers();
            let mut buf = self.messages.remove(&cid).unwrap();
            let mut incoming = msgs;
            buf.append(&mut incoming);
            self.messages.insert(cid, buf);
            proof {
                assert(self.buffers() =~~= bufs1.insert(cid, bufs1[cid] + views));
                assert(self.messages@.dom() =~= m1.dom());
                assert(bs.take(k + 1).drop_last() =~= bs.take(k as int));
                assert(bs.take(k + 1).last() == bs[k as int]);
                assert(self.chats.items@ == apply_batches(cs0, bufs0, bs.take(k + 1)).0);
                assert(self.buffers() =~~= apply_batches(cs0, bufs0, bs.take(k + 1)).1);
                assert forall|i: int| 0 <= i < cs2.len() implies server_keyed(
                    #[trigger] cs2[i],
                ) && self.messages@.contains_key(cs2[i]@.id.unwrap()) by {
                    assert(server_keyed(cs1[i]));
                    assert(m1.contains_key(cs1[i]@.id.unwrap()));
                }
            }
            k = k + 1;
        }
        proof {
            assert(bs.take(bs.len() as int) =~= bs);
        }
    }

    /// Applies one inbound message: appends it to its chat's buffer, makes it
    /// the chat's last message, re-sorts the primary list, and raises the
    /// unread counter by one unless the message is already read or its chat is
    /// the loaded chat.
    pub fn add_message(&mut self, message: Message)
        requires
            old(self).wf(),
            has_id(old(self).chats.items@, spec_dec(message.chat_id as nat)),
            old(self).messages@.contains_key(message.chat_id),
        ensures
            final(self).wf(),
            ({
                let key = spec_dec(message.chat_id as nat);
                let w = id_index(old(self).chats.items@, key);
                let c = old(self).chats.items@[w];
                let raised = if !message.is_read && !old(self).loaded_is(key) {
                    sat32(c@.number_of_unread_messages + 1)
                } else {
                    c@.number_of_unread_messages
                };
                final(self).chats.items@ == sort_ranked(
                    old(self).chats.items@.update(
                        w,
                        Chat {
                            number_of_unread_messages: raised,
                            last_message: Some(message),
                            ..c
                        },
                    ),
                )
            }),
            sorted_by_rank(final(self).chats.items@),
            final(self).buffers() == old(self).buffers().insert(
                message.chat_id,
                old(self).buffers()[message.chat_id].push(message@),
            ),
            final(self).search_results == old(self).search_results,
            final(self).loaded_internal_chat_id == old(self).loaded_internal_chat_id,
            final(self).chats.selected_item_id == old(self).chats.selected_item_id,
    {
        let key = u32_to_dec_string(message.chat_id);
        let skip_bump = message.is_read || match &self.loaded_internal_chat_id {
            Some(l) => equal_strings(l, &key),
            None => false,
        };
        let current = self.chats.get(&key).number_of_unread_messages;
        let raised = if skip_bump {
            current
        } else {
            saturating_bump(current, 1)
        };
        let ghost cs0 = self.chats.items@;
        let ghost w = id_index(cs0, key@);
        let ghost c = cs0[w];
        let mut buf = self.messages.remove(&message.chat_id).unwrap();
        let ghost bufs0 = buffers_of(old(self).messages@);
        buf.push(message.duplicate());
        self.messages.insert(message.chat_id, buf);
        proof {
            assert(self.buffers() =~~= bufs0.insert(
                message.chat_id,
                bufs0[message.chat_id].push(message@),
            ));
            assert(self.messages@.dom() =~= old(self).messages@.dom());
        }
        self.chats.set_unread(&key, raised);
        proof {
            self.chats.lemma_position(key@);
        }
        let ghost cs1 = self.chats.items@;
        self.chats.set_last_message(&key, message);
        let ghost cs2 = self.chats.items@;
        proof {
            assert(id_index(cs1, key@) == w) by {
                assert(cs1[w]@.internal_id == key@);
                let w1 = id_index(cs1, key@);
                assert(cs1[w1]@.internal_id == key@);
                if w1 != w {
                    if w1 < w {
                        assert(cs1[w1]@.internal_id != cs1[w]@.internal_id);
                    } else {
                        assert(cs1[w]@.internal_id != cs1[w1]@.internal_id);
                    }
                }
            }
            assert(cs2 =~= cs0.update(
                w,
                Chat {
                    number_of_unread_messages: raised,
                    last_message: Some(message),
                    ..c
                },
            ));
            assert forall|i: int| 0 <= i < cs2.len() implies (#[trigger] cs2[i])@.internal_id
                == cs0[i]@.internal_id && cs2[i]@.id == cs0[i]@.id by {
                if i != w {
                    assert(cs2[i] == cs0[i]);
                }
            }
        }
        self.chats.update_order();
        proof {
            crate::helpers::list::lemma_sort_ranked_elems(cs2);
            assert forall|i: int| 0 <= i < self.chats.items@.len() implies server_keyed(
                #[trigger] self.chats.items@[i],
            ) && self.messages@.contains_key(self.chats.items@[i]@.id.unwrap()) by {
                let j = choose|j: int| 0 <= j < cs2.len() && cs2[j] == self.chats.items@[i];
                assert(server_keyed(cs0[j]));
                assert(old(self).messages@.contains_key(cs0[j]@.id.unwrap()));
            }
        }
    }

    /// Sets the loaded pointer; if the chat is in the active collection, its
    /// unread counter is reset to zero.
    pub fn load_chat(&mut self, chat_internal_id: String)
        requires
            old(self).wf(),
        ensures
            final(self).wf(),
            final(self).loaded_internal_chat_id matches Some(l) && l@ == chat_internal_id@,
            final(self).messages@ == old(self).messages@,
            final(self).searching() == old(self).searching(),
            final(self).chats.selected_item_id == old(self).chats.selected_item_id,
            final(self).search_results.selected_item_id == old(self).search_results.selected_item_id,
            has_id(old(self).active_items(), chat_internal_id@) ==> final(self).active_items()
                == old(self).active_items().update(
                id_index(old(self).active_items(), chat_internal_id@),
                Chat {
                    number_of_unread_messages: 0,
                    ..old(self).active_items()[id_index(
                        old(self).active_items(),
                        chat_internal_id@,
                    )]
                },
            ),
            !has_id(old(self).active_items(), chat_internal_id@) ==> final(self).chats == old(self).chats && final(self).search_results == old(self).search_results,
            old(self).searching() ==> final(self).chats == old(self).chats,
            !old(self).searching() ==> final(self).search_results == old(self).search_results,
            sorted_by_rank(old(self).active_items()) ==> sorted_by_rank(
                final(self).active_items(),
            ),
    {
        self.loaded_internal_chat_id = Some(chat_internal_id.clone());
        if self.search_results.is_empty() {
            if self.chats.contains(chat_internal_id.as_str()) {
                let ghost cs1 = self.chats.items@;
                self.chats.set_unread(&chat_internal_id, 0);
                proof {
                    self.keep_keyed_after_update(cs1);
                }
            }
        } else {
            if self.search_results.contains(chat_internal_id.as_str()) {
                self.search_results.set_unread(&chat_internal_id, 0);
            }
        }
    }

    /// Sets the loaded pointer against the primary list only, ignoring any
    /// search overlay; resets that chat's unread counter if present.
    pub fn load_specifically_chat(&mut self, chat_internal_id: String)
        requires
            old(self).wf(),
        ensures
            final(self).wf(),
            final(self).loaded_internal_chat_id matches Some(l) && l@ == chat_internal_id@,
            final(self).messages@ == old(self).messages@,
            final(self).search_results == old(self).search_results,
            final(self).chats.selected_item_id == old(self).chats.selected_item_id,
            has_id(old(self).chats.items@, chat_internal_id@) ==> final(self).chats.items@ == old(self).chats.items@.update(
                id_index(old(self).chats.items@, chat_internal_id@),
                Chat {
                    number_of_unread_messages: 0,
                    ..old(self).chats.items@[id_index(old(self).chats.items@, chat_internal_id@)]
                },
            ),
            !has_id(old(self).chats.items@, chat_internal_id@) ==> final(self).chats == old(self).chats,
            sorted_by_rank(old(self).chats.items@) ==> sorted_by_rank(final(self).chats.items@),
    {
        self.loaded_internal_chat_id = Some(chat_internal_id.clone());
        if self.chats.contains(chat_internal_id.as_str()) {
            let ghost cs1 = self.chats.items@;
            self.chats.set_unread(&chat_internal_id, 0);
            proof {
                self.keep_keyed_after_update(cs1);
            }
        }
    }

    /// Updating a chat in place never touches its keys or the buffers, so the
    /// keyed invariant carries over.
    proof fn keep_keyed_after_update(&self, cs1: Seq<Chat>)
        requires
            self.chats.items@.len() == cs1.len(),
            forall|i: int|
                0 <= i < cs1.len() ==> (#[trigger] self.chats.items@[i])@.internal_id
                    == cs1[i]@.internal_id && self.chats.items@[i]@.id == cs1[i]@.id,
            forall|i: int|
                0 <= i < cs1.len() ==> server_keyed(#[trigger] cs1[i])
                    && self.messages@.contains_key(cs1[i]@.id.unwrap()),
        ensures
            self.chats_keyed(),
    {
        assert forall|i: int| 0 <= i < self.chats.items@.len() implies server_keyed(
            #[trigger] self.chats.items@[i],
        ) && self.messages@.contains_key(self.chats.items@[i]@.id.unwrap()) by {
            assert(server_keyed(cs1[i]));
        }
    }

    /// Selects the chat with this id in the active collection.
    pub fn select_chat(&mut self, chat_id: String)
        requires
            old(self).wf(),
            has_id(old(self).active_items(), chat_id@),
        ensures
            final(self).wf(),
            final(self).chats.items@ == old(self).chats.items@,
            final(self).search_results.items@ == old(self).search_results.items@,
            final(self).messages@ == old(self).messages@,
            final(self).loaded_internal_chat_id == old(self).loaded_internal_chat_id,
            old(self).searching() ==> (final(self).search_results.selected_item_id matches Some(
                id,
            ) && id@ == chat_id@ && final(self).chats == old(self).chats),
            !old(self).searching() ==> (final(self).chats.selected_item_id matches Some(id) && id@
                == chat_id@ && final(self).search_results == old(self).search_results),
    {
        if self.search_results.is_empty() {
            self.chats.select(&chat_id);
        } else {
            self.search_results.select(&chat_id);
        }
    }

    /// Clears the selection pointer of the active collection.
    pub fn unselect_chat(&mut self)
        requires
            old(self).wf(),
        ensures
            final(self).wf(),
            final(self).chats.items@ == old(self).chats.items@,
            final(self).search_results.items@ == old(self).search_results.items@,
            final(self).messages@ == old(self).messages@,
            final(self).loaded_internal_chat_id == old(self).loaded_internal_chat_id,
            old(self).searching() ==> final(self).search_results.selected_item_id is None
                && final(self).chats == old(self).chats,
            !old(self).searching() ==> final(self).chats.selected_item_id is None && final(self).search_results == old(self).search_results,
    {
        if self.search_results.is_empty() {
            self.chats.unselect();
        } else {
            self.search_results.unselect();
        }
    }

    /// The selection pointer of the active collection.
    pub open spec fn active_selected(self) -> Option<String> {
        if self.searching() {
            self.search_results.selected_item_id
        } else {
            self.chats.selected_item_id
        }
    }

    /// A copy of the selected chat of the active collection, if one is
    /// selected.
    pub fn get_selected_chat(&self) -> (r: Option<Chat>)
        requires
            self.wf(),
        ensures
            r is Some == self.active_selected() is Some,
            r matches Some(c) ==> c@ == self.active_items()[id_index(
                self.active_items(),
                self.active_selected().unwrap()@,
            )]@,
    {
        let list = if self.search_results.is_empty() {
            &self.chats
        } else {
            &self.search_results
        };
        match &list.selected_item_id {
            Some(id) => Some(list.get(id).duplicate()),
            None => None,
        }
    }

    /// The loaded chat, if the loaded pointer names a chat of the active
    /// collection.
    pub fn get_loaded_chat(&self) -> (r: Option<&Chat>)
        requires
            self.wf(),
        ensures
            match r {
                Some(c) => self.loaded_internal_chat_id matches Some(l) && has_id(
                    self.active_items(),
                    l@,
                ) && *c == self.active_items()[id_index(self.active_items(), l@)],
                None => match self.loaded_internal_chat_id {
                    Some(l) => !has_id(self.active_items(), l@),
                    None => true,
                },
            },
    {
        let list = if self.search_results.is_empty() {
            &self.chats
        } else {
            &self.search_results
        };
        match &self.loaded_internal_chat_id {
            Some(id) => {
                if list.contains(id.as_str()) {
                    Some(list.get(id))
                } else {
                    None
                }
            },
            None => None,
        }
    }

    /// The first chat of the primary list carrying this name, if any. Search
    /// results are not consulted: this deduplicates a prospective new chat
    /// against an existing one.
    pub fn get_chat_by_name(&self, name: &String) -> (r: Option<Chat>)
        requires
            self.wf(),
        ensures
            match r {
                Some(c) => exists|i: int|
                    0 <= i < self.chats.items@.len() && c@ == (#[trigger] self.chats.items@[i])@
                        && self.chats.items@[i]@.name == name@ && forall|j: int|
                        0 <= j < i ==> (#[trigger] self.chats.items@[j])@.name != name@,
                None => forall|i: int|
                    0 <= i < self.chats.items@.len() ==> (
                    #[trigger] self.chats.items@[i])@.name != name@,
            },
    {
        let n = self.chats.items.len();
        for i in 0..n
            invariant
                n == self.chats.items@.len(),
                forall|j: int| 0 <= j < i ==> (#[trigger] self.chats.items@[j])@.name != name@,
        {
            if equal_strings(&self.chats.items[i].name, name) {
                let found = self.chats.items[i].duplicate();
                return Some(found);
            }
        }
        None
    }

    /// Clears the loaded pointer.
    pub fn unload_chat(&mut self)
        requires
            old(self).wf(),
        ensures
            final(self).wf(),
            final(self).loaded_internal_chat_id is None,
            final(self).chats == old(self).chats,
            final(self).search_results == old(self).search_results,
            final(self).messages@ == old(self).messages@,
    {
        self.loaded_internal_chat_id = None;
    }

    /// The active collection: the search overlay while it is non-empty, else
    /// the primary list.
    pub fn get_active_chats(&self) -> (r: &StatefulOrderedList)
        ensures
            self.searching() ==> *r == self.search_results,
            !self.searching() ==> *r == self.chats,
    {
        if self.search_results.is_empty() {
            &self.chats
        } else {
            &self.search_results
        }
    }

    /// The message buffer of this chat.
    pub fn get_messages(&self, chat_id: ChatId) -> (r: &Vec<Message>)
        requires
            self.wf(),
            self.messages@.contains_key(chat_id),
        ensures
            *r == self.messages@[chat_id],
            r@.map_values(|m: Message| m@) == self.buffers()[chat_id],
    {
        self.messages.get(&chat_id).unwrap()
    }

    /// Replaces the search overlay. The overlay is a separate collection: the
    /// primary list is untouched, and navigation switches to the overlay
    /// exactly while it is non-empty.
    pub fn set_search_results(&mut self, search_results: Vec<Chat>)
        requires
            old(self).wf(),
            unique_ids(search_results@),
        ensures
            final(self).wf(),
            final(self).search_results.items@ == sort_ranked(search_results@),
            sorted_by_rank(final(self).search_results.items@),
            final(self).search_results.selected_item_id is None,
            final(self).searching() == (search_results@.len() > 0),
            final(self).chats == old(self).chats,
            final(self).messages@ == old(self).messages@,
            final(self).loaded_internal_chat_id == old(self).loaded_internal_chat_id,
    {
        self.search_results = StatefulOrderedList::new();
        let ghost incoming = search_results@;
        proof {
            assert(Seq::<Chat>::empty() + incoming =~= incoming);
        }
        self.search_results.extend(search_results);
        proof {
            crate::helpers::list::lemma_sort_ranked_elems(incoming);
        }
    }

    /// Empties the search overlay, switching navigation back to the primary
    /// list.
    pub fn clear_search_results(&mut self)
        requires
            old(self).wf(),
        ensures
            final(self).wf(),
            final(self).search_results.items@ =~= Seq::<Chat>::empty(),
            !final(self).searching(),
            final(self).chats == old(self).chats,
            final(self).messages@ == old(self).messages@,
            final(self).loaded_internal_chat_id == old(self).loaded_internal_chat_id,
    {
        self.search_results = StatefulOrderedList::new();
    }

    /// Resets the unread counter of this chat of the primary list.
    pub fn read_all(&mut self, chat_id: ChatId)
        requires
            old(self).wf(),
            has_id(old(self).chats.items@, spec_dec(chat_id as nat)),
        ensures
            final(self).wf(),
            final(self).chats.items@ == old(self).chats.items@.update(
                id_index(old(self).chats.items@, spec_dec(chat_id as nat)),
                Chat {
                    number_of_unread_messages: 0,
                    ..old(self).chats.items@[id_index(
                        old(self).chats.items@,
                        spec_dec(chat_id as nat),
                    )]
                },
            ),
            final(self).search_results == old(self).search_results,
            final(self).messages@ == old(self).messages@,
            final(self).loaded_internal_chat_id == old(self).loaded_internal_chat_id,
            final(self).chats.selected_item_id == old(self).chats.selected_item_id,
            sorted_by_rank(old(self).chats.items@) ==> sorted_by_rank(final(self).chats.items@),
    {
        let key = u32_to_dec_string(chat_id);
        let ghost cs1 = self.chats.items@;
        self.chats.set_unread(&key, 0);
        proof {
            self.keep_keyed_after_update(cs1);
        }
    }

    /// Moves the selection of the active collection to the previous chat,
    /// wrapping around.
    pub fn select_previous_chat(&mut self)
        requires
            old(self).wf(),
        ensures
            final(self).wf(),
            final(self).chats.items@ == old(self).chats.items@,
            final(self).search_results.items@ == old(self).search_results.items@,
            final(self).messages@ == old(self).messages@,
            final(self).loaded_internal_chat_id == old(self).loaded_internal_chat_id,
            old(self).active_items().len() > 0 ==> ({
                let list = if old(self).searching() {
                    old(self).search_results
                } else {
                    old(self).chats
                };
                let updated = if old(self).searching() {
                    final(self).search_results
                } else {
                    final(self).chats
                };
                updated.spec_cursor() == Some(
                    crate::helpers::list::wrap_prev(
                        list.spec_cursor(),
                        list.items@.len() as int,
                    ),
                )
            }),
    {
        if self.search_results.is_empty() {
            self.chats.previous();
        } else {
            self.search_results.previous();
        }
    }

    /// Moves the selection of the active collection to the next chat, wrapping
    /// around.
    pub fn select_next_chat(&mut self)
        requires
            old(self).wf(),
        ensures
            final(self).wf(),
            final(self).chats.items@ == old(self).chats.items@,
            final(self).search_results.items@ == old(self).search_results.items@,
            final(self).messages@ == old(self).messages@,
            final(self).loaded_internal_chat_id == old(self).loaded_internal_chat_id,
            old(self).active_items().len() > 0 ==> ({
                let list = if old(self).searching() {
                    old(self).search_results
                } else {
                    old(self).chats
                };
                let updated = if old(self).searching() {
                    final(self).search_results
                } else {
                    final(self).chats
                };
                updated.spec_cursor() == Some(
                    crate::helpers::list::wrap_next(
                        list.spec_cursor(),
                        list.items@.len() as int,
                    ),
                )
            }),
    {
        if self.search_results.is_empty() {
            self.chats.next();
        } else {
            self.search_results.next();
        }
    }
}

/// One message batch applied to the chat list and the buffers: the chat keyed
/// by the batch's id gets its unread counter raised by the batch's unread
/// count, and the batch is appended to its buffer.
pub open spec fn apply_batch(
    cs: Seq<Chat>,
    bufs: Map<ChatId, Seq<MessageView>>,
    cid: ChatId,
    ms: Seq<MessageView>,
) -> (Seq<Chat>, Map<ChatId, Seq<MessageView>>) {
    let w = id_index(cs, spec_dec(cid as nat));
    let c = cs[w];
    (
        cs.update(
            w,
            Chat {
                number_of_unread_messages: sat32(
                    c@.number_of_unread_messages + count_unread_views(ms),
                ),
                ..c
            },
        ),
        bufs.insert(cid, bufs[cid] + ms),
    )
}

/// Message batches applied in order.
pub open spec fn apply_batches(
    cs: Seq<Chat>,
    bufs: Map<ChatId, Seq<MessageView>>,
    batches: Seq<(ChatId, Seq<MessageView>)>,
) -> (Seq<Chat>, Map<ChatId, Seq<MessageView>>)
    decreases batches.len(),
{
    if batches.len() == 0 {
        (cs, bufs)
    } else {
        let prev = apply_batches(cs, bufs, batches.drop_last());
        apply_batch(prev.0, prev.1, batches.last().0, batches.last().1)
    }
}

/// An inbound message strictly newer than every chat's rank moves its chat to
/// the top of the re-sorted list — this composes with the list an
/// `add_message` call leaves behind. (When another chat ties the timestamp
/// exactly, stability decides the order instead, so such inputs are left out.)
pub proof fn lemma_inbound_newest_tops(cs: Seq<Chat>, w: int, updated: Chat)
    requires
        0 <= w < cs.len(),
        forall|j: int| 0 <= j < cs.len() && j != w ==> rank((#[trigger] cs[j])@) < rank(updated@),
    ensures
        sort_ranked(cs.update(w, updated)).len() == cs.len(),
        sort_ranked(cs.update(w, updated))[0] == updated,
{
    let s2 = cs.update(w, updated);
    assert forall|j: int| 0 <= j < s2.len() && j != w implies rank((#[trigger] s2[j])@) < rank(
        s2[w]@,
    ) by {
        assert(s2[j] == cs[j]);
    }
    crate::helpers::list::lemma_strictly_newest_sorts_first(s2, w);
}

/// Loading the same chat twice in a row is the same as loading it once: the
/// unread counter is zero after either call, resetting it again changes
/// nothing, and the chat keeps its unique position.
pub proof fn lemma_load_chat_idempotent(s: Seq<Chat>, id: Seq<char>)
    requires
        unique_ids(s),
        has_id(s, id),
    ensures
        ({
            let w = id_index(s, id);
            let s1 = s.update(w, Chat { number_of_unread_messages: 0, ..s[w] });
            &&& id_index(s1, id) == w
            &&& s1[w]@.number_of_unread_messages == 0
            &&& s1.update(w, Chat { number_of_unread_messages: 0, ..s1[w] }) == s1
        }),
{
    let w = id_index(s, id);
    assert(0 <= w < s.len() && s[w]@.internal_id == id);
    let s1 = s.update(w, Chat { number_of_unread_messages: 0, ..s[w] });
    assert(s1[w]@.internal_id == id);
    let w1 = id_index(s1, id);
    assert(0 <= w1 < s1.len() && s1[w1]@.internal_id == id);
    if w1 != w {
        if w1 < w {
            assert(s[w1] == s1[w1]);
            assert(s[w1]@.internal_id != s[w]@.internal_id);
        } else {
            assert(s[w1] == s1[w1]);
            assert(s[w]@.internal_id != s[w1]@.internal_id);
        }
    }
    assert(Chat { number_of_unread_messages: 0, ..s1[w] } == s1[w]);
    assert(s1.update(w, s1[w]) =~= s1);
}

} // verus!
