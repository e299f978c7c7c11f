//! The ordered, selectable chat collection.
//!
//! Items are kept sorted by recency rank, descending, with a stable order for
//! equal ranks: chats added earlier stay ahead. An id-to-position map gives
//! constant-time lookup by a chat's stable key and always matches the item
//! positions. Selection is a single id-keyed pointer, so it survives
//! re-sorting.

use vstd::prelude::*;
use vstd::hash_map::StringHashMap;
use vstd::multiset::Multiset;
use vstd::pervasive::VecAdditionalExecFns;
use crate::chat::{rank, Chat, Message};

verus! {

/// Whether some item carries the given internal id.
pub open spec fn has_id(s: Seq<Chat>, id: Seq<char>) -> bool {
    exists|i: int| 0 <= i < s.len() && s[i]@.internal_id == id
}

/// The position of the item carrying the given internal id.
pub open spec fn id_index(s: Seq<Chat>, id: Seq<char>) -> int {
    choose|i: int| 0 <= i < s.len() && s[i]@.internal_id == id
}

/// No two items share an internal id.
pub open spec fn unique_ids(s: Seq<Chat>) -> bool {
    forall|i: int, j: int|
        0 <= i < j < s.len() ==> (#[trigger] s[i])@.internal_id != (#[trigger] s[j])@.internal_id
}

/// Ranks descending: every item ranks at least as high as every later one.
pub open spec fn sorted_by_rank(s: Seq<Chat>) -> bool {
    forall|i: int, j: int|
        0 <= i <= j < s.len() ==> rank((#[trigger] s[i])@) >= rank((#[trigger] s[j])@)
}

/// Where the ordered insertion of one item lands: after every item ranking at
/// least as high, before the rest.
pub open spec fn insert_ranked(s: Seq<Chat>, c: Chat) -> Seq<Chat>
    decreases s.len(),
{
    if s.len() == 0 {
        seq![c]
    } else if rank(s.last()@) >= rank(c@) {
        s.push(c)
    } else {
        insert_ranked(s.drop_last(), c).push(s.last())
    }
}

/// The order the list keeps: items sorted by rank descending, stably — items
/// of equal rank keep the order in which they were added.
pub open spec fn sort_ranked(s: Seq<Chat>) -> Seq<Chat>
    decreases s.len(),
{
    if s.len() == 0 {
        Seq::empty()
    } else {
        insert_ranked(sort_ranked(s.drop_last()), s.last())
    }
}

/// Every item of an ordered insertion is the inserted item or one of the old
/// ones.
proof fn lemma_insert_ranked_elems(s: Seq<Chat>, c: Chat)
    ensures
        insert_ranked(s, c).len() == s.len() + 1,
        forall|i: int|
            0 <= i < insert_ranked(s, c).len() ==> (#[trigger] insert_ranked(s, c)[i]) == c
                || exists|j: int| 0 <= j < s.len() && s[j] == insert_ranked(s, c)[i],
    decreases s.len(),
{
    if s.len() == 0 {
    } else if rank(s.last()@) >= rank(c@) {
        assert forall|i: int| 0 <= i < s.len() implies exists|j: int|
            0 <= j < s.len() && s[j] == #[trigger] s.push(c)[i] by {
            assert(s[i] == s.push(c)[i]);
        }
    } else {
        lemma_insert_ranked_elems(s.drop_last(), c);
        let t = insert_ranked(s.drop_last(), c);
        assert forall|i: int| 0 <= i < t.push(s.last()).len() implies (t.push(s.last())[i] == c
            || exists|j: int| 0 <= j < s.len() && s[j] == t.push(s.last())[i]) by {
            if i == t.len() {
                assert(s[s.len() - 1] == t.push(s.last())[i]);
            } else {
                assert(t.push(s.last())[i] == t[i]);
                if t[i] != c {
                    let j = choose|j: int| 0 <= j < s.drop_last().len() && s.drop_last()[j] == t[i];
                    assert(s[j] == t[i]);
                }
            }
        }
    }
}

/// Ordered insertion keeps a sorted list sorted.
proof fn lemma_insert_ranked_sorted(s: Seq<Chat>, c: Chat)
    requires
        sorted_by_rank(s),
    ensures
        sorted_by_rank(insert_ranked(s, c)),
    decreases s.len(),
{
    if s.len() == 0 {
    } else if rank(s.last()@) >= rank(c@) {
        assert forall|i: int, j: int| 0 <= i <= j < s.push(c).len() implies rank(
            (#[trigger] s.push(c)[i])@,
        ) >= rank((#[trigger] s.push(c)[j])@) by {
            if j < s.len() {
                assert(s.push(c)[i] == s[i] && s.push(c)[j] == s[j]);
            } else if i < s.len() {
                assert(s.push(c)[i] == s[i]);
                assert(rank(s[i]@) >= rank(s[s.len() - 1]@));
            }
        }
    } else {
        assert(sorted_by_rank(s.drop_last())) by {
            assert forall|i: int, j: int| 0 <= i <= j < s.drop_last().len() implies rank(
                (#[trigger] s.drop_last()[i])@,
            ) >= rank((#[trigger] s.drop_last()[j])@) by {
                assert(s.drop_last()[i] == s[i] && s.drop_last()[j] == s[j]);
            }
        }
        lemma_insert_ranked_sorted(s.drop_last(), c);
        lemma_insert_ranked_elems(s.drop_last(), c);
        let t = insert_ranked(s.drop_last(), c);
        let r = t.push(s.last());
        assert forall|i: int, j: int| 0 <= i <= j < r.len() implies rank((#[trigger] r[i])@)
            >= rank((#[trigger] r[j])@) by {
            if j < t.len() {
                assert(r[i] == t[i] && r[j] == t[j]);
            } else if i < t.len() {
                assert(r[i] == t[i] && r[j] == s.last());
                if t[i] == c {
                } else {
                    let w = choose|w: int| 0 <= w < s.drop_last().len() && s.drop_last()[w] == t[i];
                    assert(s[w] == t[i]);
                    assert(rank(s[w]@) >= rank(s[s.len() - 1]@));
                }
            }
        }
    }
}

/// Ordered insertion adds exactly the inserted id.
proof fn lemma_insert_ranked_has_id(s: Seq<Chat>, c: Chat, id: Seq<char>)
    ensures
        has_id(insert_ranked(s, c), id) == (has_id(s, id) || c@.internal_id == id),
    decreases s.len(),
{
    let r = insert_ranked(s, c);
    if s.len() == 0 {
        assert(r[0] == c);
        if has_id(r, id) && c@.internal_id != id {
            let i = choose|i: int| 0 <= i < r.len() && r[i]@.internal_id == id;
            assert(false);
        }
    } else if rank(s.last()@) >= rank(c@) {
        assert(r == s.push(c));
        if has_id(s, id) {
            let i = choose|i: int| 0 <= i < s.len() && s[i]@.internal_id == id;
            assert(r[i] == s[i]);
        }
        if c@.internal_id == id {
            assert(r[s.len() as int] == c);
        }
        if has_id(r, id) {
            let i = choose|i: int| 0 <= i < r.len() && r[i]@.internal_id == id;
            if i < s.len() {
                assert(s[i] == r[i]);
            }
        }
    } else {
        lemma_insert_ranked_has_id(s.drop_last(), c, id);
        let t = insert_ranked(s.drop_last(), c);
        assert(r == t.push(s.last()));
        if has_id(t, id) {
            let i = choose|i: int| 0 <= i < t.len() && t[i]@.internal_id == id;
            assert(r[i] == t[i]);
        }
        if s.last()@.internal_id == id {
            assert(r[t.len() as int] == s.last());
        }
        if has_id(s, id) {
            let i = choose|i: int| 0 <= i < s.len() && s[i]@.internal_id == id;
            if i < s.len() - 1 {
                assert(s.drop_last()[i] == s[i]);
            }
        }
        if has_id(r, id) {
            let i = choose|i: int| 0 <= i < r.len() && r[i]@.internal_id == id;
            if i < t.len() {
            } else {
                assert(r[i] == s.last());
                assert(s[s.len() - 1]@.internal_id == id);
            }
        }
        if has_id(s.drop_last(), id) {
            let i = choose|i: int| 0 <= i < s.drop_last().len() && s.drop_last()[i]@.internal_id
                == id;
            assert(s[i] == s.drop_last()[i]);
        }
    }
}

/// Ordered insertion of a fresh id keeps ids unique.
proof fn lemma_insert_ranked_unique(s: Seq<Chat>, c: Chat)
    requires
        unique_ids(s),
        !has_id(s, c@.internal_id),
    ensures
        unique_ids(insert_ranked(s, c)),
    decreases s.len(),
{
    let r = insert_ranked(s, c);
    if s.len() == 0 {
    } else if rank(s.last()@) >= rank(c@) {
        assert forall|i: int, j: int| 0 <= i < j < r.len() implies (#[trigger] r[i])@.internal_id
            != (#[trigger] r[j])@.internal_id by {
            if j < s.len() {
                assert(r[i] == s[i] && r[j] == s[j]);
            } else {
                assert(r[i] == s[i] && r[j] == c);
                assert(!(s[i]@.internal_id == c@.internal_id));
            }
        }
    } else {
        assert(unique_ids(s.drop_last())) by {
            assert forall|i: int, j: int| 0 <= i < j < s.drop_last().len() implies (
            #[trigger] s.drop_last()[i])@.internal_id != (
            #[trigger] s.drop_last()[j])@.internal_id by {
                assert(s.drop_last()[i] == s[i] && s.drop_last()[j] == s[j]);
            }
        }
        assert(!has_id(s.drop_last(), c@.internal_id)) by {
            if has_id(s.drop_last(), c@.internal_id) {
                let i = choose|i: int|
                    0 <= i < s.drop_last().len() && s.drop_last()[i]@.internal_id
                        == c@.internal_id;
                assert(s[i] == s.drop_last()[i]);
            }
        }
        lemma_insert_ranked_unique(s.drop_last(), c);
        lemma_insert_ranked_elems(s.drop_last(), c);
        lemma_insert_ranked_has_id(s.drop_last(), c, s.last()@.internal_id);
        let t = insert_ranked(s.drop_last(), c);
        assert(!has_id(t, s.last()@.internal_id)) by {
            if has_id(s.drop_last(), s.last()@.internal_id) {
                let i = choose|i: int|
                    0 <= i < s.drop_last().len() && s.drop_last()[i]@.internal_id
                        == s.last()@.internal_id;
                assert(s[i] == s.drop_last()[i]);
                assert(s[i]@.internal_id == s[s.len() - 1]@.internal_id);
            }
            if c@.internal_id == s.last()@.internal_id {
                assert(s[s.len() - 1]@.internal_id == c@.internal_id);
            }
        }
        assert forall|i: int, j: int| 0 <= i < j < r.len() implies (#[trigger] r[i])@.internal_id
            != (#[trigger] r[j])@.internal_id by {
            if j < t.len() {
                assert(r[i] == t[i] && r[j] == t[j]);
            } else {
                assert(r[i] == t[i] && r[j] == s.last());
                if t[i]@.internal_id == s.last()@.internal_id {
                    assert(has_id(t, s.last()@.internal_id));
                }
            }
        }
    }
}

/// Sorting keeps exactly the ids that were there.
pub proof fn lemma_sort_ranked_has_id(s: Seq<Chat>, id: Seq<char>)
    ensures
        has_id(sort_ranked(s), id) == has_id(s, id),
    decreases s.len(),
{
    if s.len() > 0 {
        lemma_sort_ranked_has_id(s.drop_last(), id);
        lemma_insert_ranked_has_id(sort_ranked(s.drop_last()), s.last(), id);
        if has_id(s.drop_last(), id) {
            let i = choose|i: int|
                0 <= i < s.drop_last().len() && s.drop_last()[i]@.internal_id == id;
            assert(s[i] == s.drop_last()[i]);
        }
        if s.last()@.internal_id == id {
            assert(s[s.len() - 1]@.internal_id == id);
        }
        if has_id(s, id) && !has_id(s.drop_last(), id) {
            let i = choose|i: int| 0 <= i < s.len() && s[i]@.internal_id == id;
            if i < s.len() - 1 {
                assert(s.drop_last()[i] == s[i]);
            }
        }
    }
}

/// Sorting keeps unique ids unique.
proof fn lemma_sort_ranked_unique(s: Seq<Chat>)
    requires
        unique_ids(s),
    ensures
        unique_ids(sort_ranked(s)),
    decreases s.len(),
{
    if s.len() > 0 {
        assert(unique_ids(s.drop_last())) by {
            assert forall|i: int, j: int| 0 <= i < j < s.drop_last().len() implies (
            #[trigger] s.drop_last()[i])@.internal_id != (
            #[trigger] s.drop_last()[j])@.internal_id by {
                assert(s.drop_last()[i] == s[i] && s.drop_last()[j] == s[j]);
            }
        }
        lemma_sort_ranked_unique(s.drop_last());
        lemma_sort_ranked_has_id(s.drop_last(), s.last()@.internal_id);
        assert(!has_id(s.drop_last(), s.last()@.internal_id)) by {
            if has_id(s.drop_last(), s.last()@.internal_id) {
                let i = choose|i: int|
                    0 <= i < s.drop_last().len() && s.drop_last()[i]@.internal_id
                        == s.last()@.internal_id;
                assert(s[i] == s.drop_last()[i]);
                assert(s[i]@.internal_id == s[s.len() - 1]@.internal_id);
            }
        }
        lemma_insert_ranked_unique(sort_ranked(s.drop_last()), s.last());
    }
}

/// Every item of the sorted list is an item of the input.
pub proof fn lemma_sort_ranked_elems(s: Seq<Chat>)
    ensures
        sort_ranked(s).len() == s.len(),
        forall|i: int|
            0 <= i < sort_ranked(s).len() ==> exists|j: int|
                0 <= j < s.len() && s[j] == #[trigger] sort_ranked(s)[i],
    decreases s.len(),
{
    if s.len() > 0 {
        lemma_sort_ranked_elems(s.drop_last());
        lemma_insert_ranked_elems(sort_ranked(s.drop_last()), s.last());
        let t = sort_ranked(s.drop_last());
        let r = sort_ranked(s);
        assert forall|i: int| 0 <= i < r.len() implies exists|j: int|
            0 <= j < s.len() && s[j] == #[trigger] r[i] by {
            if r[i] == s.last() {
                assert(s[s.len() - 1] == r[i]);
            } else {
                let w = choose|w: int| 0 <= w < t.len() && t[w] == r[i];
                let j = choose|j: int| 0 <= j < s.drop_last().len() && s.drop_last()[j] == t[w];
                assert(s[j] == r[i]);
            }
        }
    }
}

/// The sorted list is sorted.
pub proof fn lemma_sort_ranked_sorted(s: Seq<Chat>)
    ensures
        sorted_by_rank(sort_ranked(s)),
    decreases s.len(),
{
    if s.len() > 0 {
        lemma_sort_ranked_sorted(s.drop_last());
        lemma_insert_ranked_sorted(sort_ranked(s.drop_last()), s.last());
    }
}

/// Ordered insertion holds exactly the old items and the inserted one.
proof fn lemma_insert_ranked_multiset(s: Seq<Chat>, c: Chat)
    ensures
        insert_ranked(s, c).to_multiset() =~= s.to_multiset().insert(c),
    decreases s.len(),
{
    broadcast use vstd::seq_lib::group_to_multiset_ensures;

    if s.len() == 0 {
        assert(seq![c] =~= Seq::<Chat>::empty().push(c));
        assert(insert_ranked(s, c).to_multiset() =~= Seq::<Chat>::empty().to_multiset().insert(c));
        assert(Seq::<Chat>::empty().to_multiset() =~= Multiset::<Chat>::empty());
    } else if rank(s.last()@) >= rank(c@) {
        assert(insert_ranked(s, c) == s.push(c));
    } else {
        lemma_insert_ranked_multiset(s.drop_last(), c);
        let t = insert_ranked(s.drop_last(), c);
        assert(insert_ranked(s, c) == t.push(s.last()));
        assert(t.push(s.last()).to_multiset() =~= t.to_multiset().insert(s.last()));
        assert(s =~= s.drop_last().push(s.last()));
        assert(s.to_multiset() =~= s.drop_last().to_multiset().insert(s.last()));
        assert(t.to_multiset().insert(s.last()) =~= s.drop_last().to_multiset().insert(c).insert(
            s.last(),
        ));
        assert(s.drop_last().to_multiset().insert(c).insert(s.last())
            =~= s.drop_last().to_multiset().insert(s.last()).insert(c));
    }
}

/// Sorting holds exactly the items that were there.
pub proof fn lemma_sort_ranked_multiset(s: Seq<Chat>)
    ensures
        sort_ranked(s).to_multiset() =~= s.to_multiset(),
    decreases s.len(),
{
    broadcast use vstd::seq_lib::group_to_multiset_ensures;

    if s.len() > 0 {
        lemma_sort_ranked_multiset(s.drop_last());
        lemma_insert_ranked_multiset(sort_ranked(s.drop_last()), s.last());
        assert(s =~= s.drop_last().push(s.last()));
        assert(s.to_multiset() =~= s.drop_last().to_multiset().insert(s.last()));
    }
}

/// A chat ranking strictly above every other chat stands first after the
/// re-sort. (When another chat ties the rank exactly, the order is decided by
/// stability instead.)
pub proof fn lemma_strictly_newest_sorts_first(s: Seq<Chat>, w: int)
    requires
        0 <= w < s.len(),
        forall|j: int| 0 <= j < s.len() && j != w ==> rank((#[trigger] s[j])@) < rank(s[w]@),
    ensures
        sort_ranked(s).len() == s.len(),
        sort_ranked(s)[0] == s[w],
{
    broadcast use vstd::seq_lib::group_to_multiset_ensures;

    lemma_sort_ranked_sorted(s);
    lemma_sort_ranked_elems(s);
    lemma_sort_ranked_multiset(s);
    let t = sort_ranked(s);
    assert(s.contains(s[w]));
    assert(s.to_multiset().count(s[w]) > 0);
    assert(t.to_multiset().count(s[w]) > 0);
    assert(t.contains(s[w]));
    let k = choose|k: int| 0 <= k < t.len() && t[k] == s[w];
    let j = choose|j: int| 0 <= j < s.len() && s[j] == t[0];
    assert(rank(t[0]@) >= rank(t[k]@));
    if j != w {
        assert(rank(s[j]@) < rank(s[w]@));
        assert(false);
    }
}

/// Where a scan from the end stops is where the ordered insertion lands.
proof fn lemma_insert_ranked_at(s: Seq<Chat>, c: Chat, j: int)
    requires
        0 <= j <= s.len(),
        forall|t: int| j <= t < s.len() ==> rank((#[trigger] s[t])@) < rank(c@),
        j > 0 ==> rank(s[j - 1]@) >= rank(c@),
    ensures
        insert_ranked(s, c) == s.insert(j, c),
    decreases s.len(),
{
    if s.len() == 0 {
        assert(insert_ranked(s, c) =~= s.insert(0, c));
    } else if rank(s.last()@) >= rank(c@) {
        assert(j == s.len());
        assert(s.insert(j, c) =~= s.push(c));
    } else {
        assert(j < s.len());
        assert forall|t: int| j <= t < s.drop_last().len() implies rank(
            (#[trigger] s.drop_last()[t])@,
        ) < rank(c@) by {
            assert(s.drop_last()[t] == s[t]);
        }
        if j > 0 {
            assert(s.drop_last()[j - 1] == s[j - 1]);
        }
        lemma_insert_ranked_at(s.drop_last(), c, j);
        assert(insert_ranked(s.drop_last(), c).push(s.last()) =~= s.insert(j, c));
    }
}

/// The item positions a well-formed index map must reflect.
pub open spec fn indices_match(m: Map<Seq<char>, usize>, s: Seq<Chat>) -> bool {
    &&& forall|i: int|
        0 <= i < s.len() ==> m.contains_key((#[trigger] s[i])@.internal_id) && m[s[i]@.internal_id]
            == i
    &&& forall|id: Seq<char>|
        #[trigger] m.contains_key(id) ==> 0 <= m[id] < s.len() && s[m[id] as int]@.internal_id
            == id
}

/// An ordered, selectable collection of chats with constant-time lookup by
/// internal id.
pub struct StatefulOrderedList {
    pub items: Vec<Chat>,
    pub selected_item_id: Option<String>,
    pub item_indices: StringHashMap<usize>,
}

impl StatefulOrderedList {
    /// Items and selection are consistent: ids unique, a selected id present.
    pub open spec fn content_wf(self) -> bool {
        &&& unique_ids(self.items@)
        &&& match self.selected_item_id {
            Some(id) => has_id(self.items@, id@),
            None => true,
        }
    }

    /// Well-formed: contents consistent and the index map matching the item
    /// positions exactly.
    pub open spec fn wf(self) -> bool {
        &&& self.content_wf()
        &&& indices_match(self.item_indices@, self.items@)
    }

    /// The position the selection points at, if any.
    pub open spec fn spec_cursor(self) -> Option<int> {
        match self.selected_item_id {
            Some(id) => Some(id_index(self.items@, id@)),
            None => None,
        }
    }

    /// An empty list.
    pub fn new() -> (r: Self)
        ensures
            r.wf(),
            r.items@ =~= Seq::<Chat>::empty(),
            r.selected_item_id is None,
    {
        StatefulOrderedList {
            items: Vec::new(),
            selected_item_id: None,
            item_indices: StringHashMap::new(),
        }
    }

    /// Whether an item with this internal id is in the list.
    pub fn contains(&self, item_id: &str) -> (r: bool)
        requires
            self.wf(),
        ensures
            r == has_id(self.items@, item_id@),
    {
        let r = self.item_indices.contains_key(item_id);
        proof {
            if has_id(self.items@, item_id@) {
                let i = choose|i: int|
                    0 <= i < self.items@.len() && self.items@[i]@.internal_id == item_id@;
                assert(self.item_indices@.contains_key(self.items@[i]@.internal_id));
            }
        }
        r
    }

    /// The position of the item with this id; its uniqueness.
    pub proof fn lemma_position(&self, id: Seq<char>)
        requires
            self.wf(),
            has_id(self.items@, id),
        ensures
            0 <= id_index(self.items@, id) < self.items@.len(),
            self.items@[id_index(self.items@, id)]@.internal_id == id,
            forall|i: int|
                0 <= i < self.items@.len() && (#[trigger] self.items@[i])@.internal_id == id
                    ==> i == id_index(self.items@, id),
            self.item_indices@.contains_key(id),
            self.item_indices@[id] == id_index(self.items@, id),
    {
        let w = id_index(self.items@, id);
        assert(0 <= w < self.items@.len() && self.items@[w]@.internal_id == id);
        assert forall|i: int|
            0 <= i < self.items@.len() && (#[trigger] self.items@[i])@.internal_id == id implies i
            == w by {
            if i != w {
                if i < w {
                    assert(self.items@[i]@.internal_id != self.items@[w]@.internal_id);
                } else {
                    assert(self.items@[w]@.internal_id != self.items@[i]@.internal_id);
                }
            }
        }
        assert(self.item_indices@.contains_key(self.items@[w]@.internal_id));
    }

    /// A reference to the item with this id.
    pub fn get(&self, item_id: &String) -> (r: &Chat)
        requires
            self.wf(),
            has_id(self.items@, item_id@),
        ensures
            *r == self.items@[id_index(self.items@, item_id@)],
            r@.internal_id == item_id@,
    {
        proof {
            self.lemma_position(item_id@);
        }
        let idx = *self.item_indices.get(item_id.as_str()).unwrap();
        &self.items[idx]
    }

    /// Whether the list has no items.
    pub fn is_empty(&self) -> (r: bool)
        ensures
            r == (self.items@.len() == 0),
    {
        self.items.len() == 0
    }

    /// Re-sorts the items and rebuilds the index map. The sort is stable:
    /// items of equal rank keep the order in which they were added, which is
    /// the tie-break rule for equal timestamps.
    pub fn update_order(&mut self)
        requires
            old(self).content_wf(),
        ensures
            final(self).wf(),
            final(self).items@ == sort_ranked(old(self).items@),
            sorted_by_rank(final(self).items@),
            final(self).selected_item_id == old(self).selected_item_id,
    {
        let ghost orig = self.items@;
        let total = self.items.len();
        let mut out: Vec<Chat> = Vec::new();
        proof {
            assert(orig.take(0) =~= Seq::<Chat>::empty());
        }
        let mut k: usize = 0;
        while k < total
            invariant
                total == orig.len(),
                orig.len() <= usize::MAX,
                k <= total,
                self.items@ =~= orig.skip(k as int),
                out@ == sort_ranked(orig.take(k as int)),
                self.selected_item_id == old(self).selected_item_id,
                self.item_indices@ == old(self).item_indices@,
            decreases total - k,
        {
            let c = self.items.remove(0);
            proof {
                assert(c == orig[k as int]);
            }
            let ghost snapshot = out@;
            let mut j = out.len();
            while j > 0 && rank_lt(&out[j - 1], &c)
                invariant
                    j <= out.len(),
                    out@ == snapshot,
                    forall|t: int|
                        j <= t < out@.len() ==> rank((#[trigger] out@[t])@) < rank(c@),
                decreases j,
            {
                j = j - 1;
            }
            proof {
                lemma_insert_ranked_at(out@, c, j as int);
                assert(orig.take(k + 1).drop_last() =~= orig.take(k as int));
                assert(orig.take(k + 1).last() == orig[k as int]);
            }
            out.insert(j, c);
            k = k + 1;
            proof {
                assert(self.items@ =~= orig.skip(k as int));
            }
        }
        proof {
            assert(orig.take(total as int) =~= orig);
        }
        self.items = out;
        proof {
            if old(self).selected_item_id is Some {
                lemma_sort_ranked_has_id(orig, old(self).selected_item_id.unwrap()@);
            }
            lemma_sort_ranked_unique(orig);
            lemma_sort_ranked_sorted(orig);
        }
        self.rebuild_indices();
    }

    /// Rebuilds the id-to-position map from the items.
    fn rebuild_indices(&mut self)
        requires
            old(self).content_wf(),
        ensures
            final(self).wf(),
            final(self).items@ == old(self).items@,
            final(self).selected_item_id == old(self).selected_item_id,
    {
        self.item_indices = StringHashMap::new();
        let total = self.items.len();
        let mut i: usize = 0;
        while i < total
            invariant
                total == self.items@.len(),
                i <= total,
                self.items@ == old(self).items@,
                self.selected_item_id == old(self).selected_item_id,
                unique_ids(self.items@),
                forall|t: int|
                    0 <= t < i ==> self.item_indices@.contains_key(
                        (#[trigger] self.items@[t])@.internal_id,
                    ) && self.item_indices@[self.items@[t]@.internal_id] == t,
                forall|id: Seq<char>|
                    #[trigger] self.item_indices@.contains_key(id) ==> 0 <= self.item_indices@[id]
                        < i && self.items@[self.item_indices@[id] as int]@.internal_id == id,
            decreases total - i,
        {
            let key = self.items[i].internal_id.clone();
            self.item_indices.insert(key, i);
            proof {
                assert forall|t: int|
                    0 <= t < i + 1 implies self.item_indices@.contains_key(
                    (#[trigger] self.items@[t])@.internal_id,
                ) && self.item_indices@[self.items@[t]@.internal_id] == t by {
                    if t < i {
                        assert(self.items@[t]@.internal_id != self.items@[i as int]@.internal_id);
                    }
                }
            }
            i = i + 1;
        }
    }

    /// Adds the items and re-sorts the whole list.
    pub fn extend(&mut self, items: Vec<Chat>)
        requires
            old(self).wf(),
            unique_ids(old(self).items@ + items@),
        ensures
            final(self).wf(),
            final(self).items@ == sort_ranked(old(self).items@ + items@),
            sorted_by_rank(final(self).items@),
            final(self).selected_item_id == old(self).selected_item_id,
    {
        let mut new_items = items;
        self.items.append(&mut new_items);
        proof {
            if old(self).selected_item_id is Some {
                let id = old(self).selected_item_id.unwrap()@;
                let i = choose|i: int|
                    0 <= i < old(self).items@.len() && old(self).items@[i]@.internal_id == id;
                assert(self.items@[i]@.internal_id == id);
            }
        }
        self.update_order();
    }

    /// Adds one item and re-sorts the whole list.
    pub fn push(&mut self, item: Chat)
        requires
            old(self).wf(),
            !has_id(old(self).items@, item@.internal_id),
        ensures
            final(self).wf(),
            final(self).items@ == sort_ranked(old(self).items@.push(item)),
            sorted_by_rank(final(self).items@),
            final(self).selected_item_id == old(self).selected_item_id,
    {
        let ghost pre = self.items@;
        proof {
            assert forall|i: int, j: int| 0 <= i < j < pre.push(item).len() implies (
            #[trigger] pre.push(item)[i])@.internal_id != (
            #[trigger] pre.push(item)[j])@.internal_id by {
                if j < pre.len() {
                    assert(pre.push(item)[i] == pre[i] && pre.push(item)[j] == pre[j]);
                } else {
                    assert(pre.push(item)[i] == pre[i] && pre.push(item)[j] == item);
                    if pre[i]@.internal_id == item@.internal_id {
                        assert(has_id(pre, item@.internal_id));
                    }
                }
            }
        }
        self.items.push(item);
        proof {
            if old(self).selected_item_id is Some {
                let id = old(self).selected_item_id.unwrap()@;
                let i = choose|i: int| 0 <= i < pre.len() && pre[i]@.internal_id == id;
                assert(self.items@[i]@.internal_id == id);
            }
        }
        self.update_order();
    }

    /// Selects the item with this id and returns a copy of it.
    pub fn select(&mut self, item_id: &String) -> (r: Chat)
        requires
            old(self).wf(),
            has_id(old(self).items@, item_id@),
        ensures
            final(self).wf(),
            final(self).items@ == old(self).items@,
            final(self).item_indices@ == old(self).item_indices@,
            final(self).selected_item_id matches Some(id) && id@ == item_id@,
            r@ == old(self).items@[id_index(old(self).items@, item_id@)]@,
    {
        proof {
            self.lemma_position(item_id@);
        }
        self.selected_item_id = Some(item_id.clone());
        let idx = *self.item_indices.get(item_id.as_str()).unwrap();
        self.items[idx].duplicate()
    }

    /// Clears the selection pointer.
    pub fn unselect(&mut self)
        requires
            old(self).wf(),
        ensures
            final(self).wf(),
            final(self).items@ == old(self).items@,
            final(self).item_indices@ == old(self).item_indices@,
            final(self).selected_item_id is None,
    {
        self.selected_item_id = None;
    }

    /// Moves the selection to the next item, wrapping around; selects the
    /// first item when nothing is selected. Does nothing on an empty list.
    pub fn next(&mut self)
        requires
            old(self).wf(),
        ensures
            final(self).wf(),
            final(self).items@ == old(self).items@,
            final(self).item_indices@ == old(self).item_indices@,
            old(self).items@.len() == 0 ==> final(self).selected_item_id == old(
                self,
            ).selected_item_id,
            old(self).items@.len() > 0 ==> final(self).spec_cursor() == Some(
                wrap_next(old(self).spec_cursor(), old(self).items@.len() as int),
            ) && final(self).selected_item_id is Some,
    {
        if self.items.len() == 0 {
            return ;
        }
        let cur: Option<usize> = match &self.selected_item_id {
            Some(id) => {
                proof {
                    self.lemma_position(id@);
                }
                Some(*self.item_indices.get(id.as_str()).unwrap())
            },
            None => None,
        };
        let ni: usize = match cur {
            Some(i) => if i >= self.items.len() - 1 {
                0
            } else {
                i + 1
            },
            None => 0,
        };
        let new_id = self.items[ni].internal_id.clone();
        self.selected_item_id = Some(new_id);
        proof {
            self.lemma_position(self.items@[ni as int]@.internal_id);
        }
    }

    /// Moves the selection to the previous item, wrapping around; selects the
    /// first item when nothing is selected. Does nothing on an empty list.
    pub fn previous(&mut self)
        requires
            old(self).wf(),
        ensures
            final(self).wf(),
            final(self).items@ == old(self).items@,
            final(self).item_indices@ == old(self).item_indices@,
            old(self).items@.len() == 0 ==> final(self).selected_item_id == old(
                self,
            ).selected_item_id,
            old(self).items@.len() > 0 ==> final(self).spec_cursor() == Some(
                wrap_prev(old(self).spec_cursor(), old(self).items@.len() as int),
            ) && final(self).selected_item_id is Some,
    {
        if self.items.len() == 0 {
            return ;
        }
        let cur: Option<usize> = match &self.selected_item_id {
            Some(id) => {
                proof {
                    self.lemma_position(id@);
                }
                Some(*self.item_indices.get(id.as_str()).unwrap())
            },
            None => None,
        };
        let ni: usize = match cur {
            Some(i) => if i == 0 {
                self.items.len() - 1
            } else {
                i - 1
            },
            None => 0,
        };
        let new_id = self.items[ni].internal_id.clone();
        self.selected_item_id = Some(new_id);
        proof {
            self.lemma_position(self.items@[ni as int]@.internal_id);
        }
    }

    /// Sets the unread counter of the item with this id.
    pub fn set_unread(&mut self, item_id: &String, count: u32)
        requires
            old(self).wf(),
            has_id(old(self).items@, item_id@),
        ensures
            final(self).wf(),
            final(self).items@ == old(self).items@.update(
                id_index(old(self).items@, item_id@),
                Chat {
                    number_of_unread_messages: count,
                    ..old(self).items@[id_index(old(self).items@, item_id@)]
                },
            ),
            final(self).selected_item_id == old(self).selected_item_id,
            final(self).item_indices@ == old(self).item_indices@,
            sorted_by_rank(old(self).items@) ==> sorted_by_rank(final(self).items@),
    {
        proof {
            self.lemma_position(item_id@);
        }
        let ghost pre = self.items@;
        let ghost w = id_index(pre, item_id@);
        let idx = *self.item_indices.get(item_id.as_str()).unwrap();
        let mut c = self.items.remove(idx);
        c.number_of_unread_messages = count;
        self.items.insert(idx, c);
        proof {
            assert(self.items@ =~= pre.update(
                w,
                Chat { number_of_unread_messages: count, ..pre[w] },
            ));
            lemma_same_ids_keep_wf(pre, self.items@, self.item_indices@);
            if sorted_by_rank(pre) {
                assert forall|i: int, j: int| 0 <= i <= j < self.items@.len() implies rank(
                    (#[trigger] self.items@[i])@,
                ) >= rank((#[trigger] self.items@[j])@) by {
                    assert(rank(self.items@[i]@) == rank(pre[i]@));
                    assert(rank(self.items@[j]@) == rank(pre[j]@));
                }
            }
        }
    }

    /// Replaces the last message of the item with this id. The caller re-sorts
    /// afterwards, since this can change the item's rank.
    pub fn set_last_message(&mut self, item_id: &String, message: Message)
        requires
            old(self).wf(),
            has_id(old(self).items@, item_id@),
        ensures
            final(self).wf(),
            final(self).items@ == old(self).items@.update(
                id_index(old(self).items@, item_id@),
                Chat {
                    last_message: Some(message),
                    ..old(self).items@[id_index(old(self).items@, item_id@)]
                },
            ),
            final(self).selected_item_id == old(self).selected_item_id,
            final(self).item_indices@ == old(self).item_indices@,
    {
        proof {
            self.lemma_position(item_id@);
        }
        let ghost pre = self.items@;
        let ghost w = id_index(pre, item_id@);
        let idx = *self.item_indices.get(item_id.as_str()).unwrap();
        let mut c = self.items.remove(idx);
        c.last_message = Some(message);
        self.items.insert(idx, c);
        proof {
            assert(self.items@ =~= pre.update(w, Chat { last_message: Some(message), ..pre[w] }));
            lemma_same_ids_keep_wf(pre, self.items@, self.item_indices@);
        }
    }
}

/// Wrap-around successor of a cursor over a non-empty list.
pub open spec fn wrap_next(cur: Option<int>, len: int) -> int {
    match cur {
        Some(i) => if i >= len - 1 {
            0
        } else {
            i + 1
        },
        None => 0,
    }
}

/// Wrap-around predecessor of a cursor over a non-empty list.
pub open spec fn wrap_prev(cur: Option<int>, len: int) -> int {
    match cur {
        Some(i) => if i == 0 {
            len - 1
        } else {
            i - 1
        },
        None => 0,
    }
}

/// Replacing items without touching their ids preserves well-formedness.
proof fn lemma_same_ids_keep_wf(a: Seq<Chat>, b: Seq<Chat>, m: Map<Seq<char>, usize>)
    requires
        a.len() == b.len(),
        forall|i: int|
            0 <= i < a.len() ==> (#[trigger] a[i])@.internal_id == (#[trigger] b[i])@.internal_id,
        unique_ids(a),
        indices_match(m, a),
    ensures
        unique_ids(b),
        indices_match(m, b),
        forall|id: Seq<char>| #[trigger] has_id(b, id) == has_id(a, id),
{
    assert forall|id: Seq<char>| #[trigger] has_id(b, id) == has_id(a, id) by {
        if has_id(a, id) {
            let i = choose|i: int| 0 <= i < a.len() && a[i]@.internal_id == id;
            assert(b[i]@.internal_id == id);
        }
        if has_id(b, id) {
            let i = choose|i: int| 0 <= i < b.len() && b[i]@.internal_id == id;
            assert(a[i]@.internal_id == id);
        }
    }
    assert forall|i: int, j: int| 0 <= i < j < b.len() implies (#[trigger] b[i])@.internal_id != (
    #[trigger] b[j])@.internal_id by {
        assert(a[i]@.internal_id != a[j]@.internal_id);
    }
    assert forall|i: int|
        0 <= i < b.len() implies m.contains_key((#[trigger] b[i])@.internal_id) && m[b[i]@.internal_id]
        == i by {
        assert(m.contains_key(a[i]@.internal_id) && m[a[i]@.internal_id] == i);
    }
    assert forall|id: Seq<char>| #[trigger] m.contains_key(id) implies 0 <= m[id] < b.len()
        && b[m[id] as int]@.internal_id == id by {
        assert(a[m[id] as int]@.internal_id == id);
    }
}

/// Whether one chat ranks strictly below another.
fn rank_lt(a: &Chat, b: &Chat) -> (r: bool)
    ensures
        r == (rank(a@) < rank(b@)),
{
    match (&a.last_message, &b.last_message) {
        (None, None) => false,
        (None, Some(_)) => true,
        (Some(_), None) => false,
        (Some(x), Some(y)) => x.created_at < y.created_at,
    }
}

} // verus!
