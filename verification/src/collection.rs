use vstd::prelude::*;

use crate::entity::Entity;
use crate::error::BacklogResult;
use crate::item::{BacklogItem, ItemModel};
use crate::types::{Assignee, StoryPoint};

verus! {

/// Whether some entry carries the key.
pub open spec fn has_key(s: Seq<(u128, ItemModel)>, k: u128) -> bool {
    exists|i: int| 0 <= i < s.len() && s[i].0 == k
}

/// A position of the key among the entries; under distinct keys it is the
/// only one.
pub open spec fn key_index(s: Seq<(u128, ItemModel)>, k: u128) -> int {
    choose|i: int| 0 <= i < s.len() && s[i].0 == k
}

/// The item stored under the key, if any entry carries it.
pub open spec fn spec_find(s: Seq<(u128, ItemModel)>, k: u128) -> Option<ItemModel> {
    if has_key(s, k) {
        Some(s[key_index(s, k)].1)
    } else {
        None
    }
}

/// No two entries carry the same key.
pub open spec fn keys_distinct(s: Seq<(u128, ItemModel)>) -> bool {
    forall|i: int, j: int| 0 <= i < j < s.len() ==> s[i].0 != s[j].0
}

/// The shape every backlog collection keeps: keys are distinct, and each
/// entry stores an item under that item's own identity.
pub open spec fn entries_ok(s: Seq<(u128, ItemModel)>) -> bool {
    keys_distinct(s) && (forall|i: int| 0 <= i < s.len() ==> (#[trigger] s[i]).0 == s[i].1.id)
}

/// The entries after inserting an item under its identity: an existing key
/// keeps its place and gets the new item; a new key lands at the end.
pub open spec fn spec_add(s: Seq<(u128, ItemModel)>, m: ItemModel) -> Seq<(u128, ItemModel)> {
    if has_key(s, m.id) {
        s.update(key_index(s, m.id), (m.id, m))
    } else {
        s.push((m.id, m))
    }
}

/// The entries after assigning the item under the key; meaningful when the
/// key is present.
pub open spec fn spec_assign(s: Seq<(u128, ItemModel)>, k: u128, assignee: Seq<char>) -> Seq<
    (u128, ItemModel),
> {
    s.update(key_index(s, k), (k, s[key_index(s, k)].1.with_assignee(assignee)))
}

/// The entries after estimating the item under the key; meaningful when the
/// key is present.
pub open spec fn spec_estimate(s: Seq<(u128, ItemModel)>, k: u128, point: u8) -> Seq<
    (u128, ItemModel),
> {
    s.update(key_index(s, k), (k, s[key_index(s, k)].1.with_point(point)))
}


/// The models of the items, in order.
pub open spec fn item_models(s: Seq<BacklogItem>) -> Seq<ItemModel> {
    s.map_values(|it: BacklogItem| it@)
}

/// The entries grown from an initial sequence by adding each item in turn.
pub open spec fn spec_add_all(s: Seq<(u128, ItemModel)>, ms: Seq<ItemModel>) -> Seq<
    (u128, ItemModel),
>
    decreases ms.len(),
{
    if ms.len() == 0 {
        s
    } else {
        spec_add(spec_add_all(s, ms.drop_last()), ms.last())
    }
}


/// The item models of the entries, in order.
pub open spec fn entry_models(s: Seq<(u128, ItemModel)>) -> Seq<ItemModel> {
    s.map_values(|p: (u128, ItemModel)| p.1)
}

/// Under distinct keys, any position holding the key is the key's position.
pub proof fn lemma_key_index_unique(s: Seq<(u128, ItemModel)>, k: u128, i: int)
    requires
        keys_distinct(s),
        0 <= i < s.len(),
        s[i].0 == k,
    ensures
        has_key(s, k),
        key_index(s, k) == i,
{
    assert(has_key(s, k));
    let j = key_index(s, k);
    if i < j {
        assert(s[i].0 != s[j].0);
    } else if j < i {
        assert(s[j].0 != s[i].0);
    }
}

/// Inserting keeps the collection's shape.
pub proof fn lemma_add_preserves_ok(s: Seq<(u128, ItemModel)>, m: ItemModel)
    requires
        entries_ok(s),
    ensures
        entries_ok(spec_add(s, m)),
        spec_find(spec_add(s, m), m.id) == Some(m),
{
    let t = spec_add(s, m);
    if has_key(s, m.id) {
        let i = key_index(s, m.id);
        assert(0 <= i < s.len() && s[i].0 == m.id);
        assert(forall|j: int| 0 <= j < t.len() ==> (#[trigger] t[j]).0 == s[j].0);
        assert(keys_distinct(t));
        lemma_key_index_unique(t, m.id, i);
    } else {
        assert(forall|j: int| 0 <= j < s.len() ==> #[trigger] t[j] == s[j]);
        assert(t[s.len() as int].0 == m.id);
        assert(keys_distinct(t));
        lemma_key_index_unique(t, m.id, s.len() as int);
    }
}

/// Assigning keeps the collection's shape, and only the entry under the key
/// changes, taking the assignee.
pub proof fn lemma_assign_preserves_ok(s: Seq<(u128, ItemModel)>, k: u128, assignee: Seq<char>)
    requires
        entries_ok(s),
        has_key(s, k),
    ensures
        entries_ok(spec_assign(s, k, assignee)),
        spec_find(spec_assign(s, k, assignee), k) == Some(
            s[key_index(s, k)].1.with_assignee(assignee),
        ),
        forall|other: u128|
            other != k ==> #[trigger] spec_find(spec_assign(s, k, assignee), other) == spec_find(
                s,
                other,
            ),
{
    let i = key_index(s, k);
    assert(0 <= i < s.len() && s[i].0 == k);
    let t = spec_assign(s, k, assignee);
    assert(forall|j: int| 0 <= j < t.len() ==> (#[trigger] t[j]).0 == s[j].0);
    assert(keys_distinct(t));
    lemma_key_index_unique(t, k, i);
    assert forall|other: u128| other != k implies #[trigger] spec_find(t, other) == spec_find(
        s,
        other,
    ) by {
        lemma_find_same_after_update(s, t, other);
    }
}

/// Estimating keeps the collection's shape, and only the entry under the key
/// changes, taking the point.
pub proof fn lemma_estimate_preserves_ok(s: Seq<(u128, ItemModel)>, k: u128, point: u8)
    requires
        entries_ok(s),
        has_key(s, k),
    ensures
        entries_ok(spec_estimate(s, k, point)),
        spec_find(spec_estimate(s, k, point), k) == Some(
            s[key_index(s, k)].1.with_point(point),
        ),
        forall|other: u128|
            other != k ==> #[trigger] spec_find(spec_estimate(s, k, point), other) == spec_find(
                s,
                other,
            ),
{
    let i = key_index(s, k);
    assert(0 <= i < s.len() && s[i].0 == k);
    let t = spec_estimate(s, k, point);
    assert(forall|j: int| 0 <= j < t.len() ==> (#[trigger] t[j]).0 == s[j].0);
    assert(keys_distinct(t));
    lemma_key_index_unique(t, k, i);
    assert forall|other: u128| other != k implies #[trigger] spec_find(t, other) == spec_find(
        s,
        other,
    ) by {
        lemma_find_same_after_update(s, t, other);
    }
}

/// Two entry sequences of the same length and keys that agree wherever the
/// key sits find the same item under that key.
proof fn lemma_find_same_after_update(s: Seq<(u128, ItemModel)>, t: Seq<(u128, ItemModel)>, k: u128)
    requires
        keys_distinct(s),
        t.len() == s.len(),
        forall|j: int| 0 <= j < t.len() ==> (#[trigger] t[j]).0 == s[j].0,
        forall|j: int| 0 <= j < s.len() && s[j].0 == k ==> #[trigger] t[j] == s[j],
    ensures
        spec_find(t, k) == spec_find(s, k),
{
    assert(keys_distinct(t));
    if has_key(s, k) {
        let i = key_index(s, k);
        assert(0 <= i < s.len() && s[i].0 == k);
        lemma_key_index_unique(t, k, i);
    } else {
        if has_key(t, k) {
            let i = key_index(t, k);
            assert(s[i].0 == k);
        }
    }
}

/// The collection can be searched for one item by identity.
pub trait FindFromCollection {
    /// The entries, in insertion order.
    spec fn spec_entries(&self) -> Seq<(u128, ItemModel)>;

    /// The collection's internal shape holds.
    spec fn spec_inv(&self) -> bool;

    fn len(&self) -> (n: usize)
        ensures
            n == self.spec_entries().len(),
    ;

    fn is_empty(&self) -> (b: bool)
        ensures
            b == (self.spec_entries().len() == 0),
    ;

    /// Find the item stored under the identity, if it is present.
    fn find_by_id(&self, id: u128) -> (r: Option<&BacklogItem>)
        requires
            self.spec_inv(),
        ensures
            match r {
                Some(item) => spec_find(self.spec_entries(), id) == Some(item@),
                None => spec_find(self.spec_entries(), id) is None,
            },
    ;
}

/// The collection can take one more item, stored under the item's identity;
/// an item under an already present identity silently replaces the old one.
pub trait AddItem: FindFromCollection + Entity {
    fn add_item(&mut self, item: BacklogItem)
        requires
            old(self).spec_inv(),
        ensures
            final(self).spec_inv(),
            final(self).spec_id() == old(self).spec_id(),
            final(self).spec_entries() == spec_add(old(self).spec_entries(), item@),
    ;
}

/// The collection can search for one item by identity and assign it.
pub trait AssignableFromCollection: FindFromCollection + Entity {
    /// Assign the item under the identity; an absent identity is a not-found
    /// failure and leaves the collection unchanged.
    fn assign_item(&mut self, id: u128, assignee: Assignee) -> (r: BacklogResult<()>)
        requires
            old(self).spec_inv(),
        ensures
            final(self).spec_inv(),
            final(self).spec_id() == old(self).spec_id(),
            match r {
                Ok(()) => has_key(old(self).spec_entries(), id) && final(self).spec_entries()
                    == spec_assign(old(self).spec_entries(), id, assignee@),
                Err(e) => e is NotFound && !has_key(old(self).spec_entries(), id)
                    && final(self).spec_entries() == old(self).spec_entries(),
            },
    ;
}

/// The collection can search for one item by identity and estimate it.
pub trait EstimatableFromCollection: FindFromCollection + Entity {
    /// Estimate the item under the identity; an absent identity is a
    /// not-found failure and leaves the collection unchanged.
    fn estimate_item(&mut self, id: u128, point: StoryPoint) -> (r: BacklogResult<()>)
        requires
            old(self).spec_inv(),
        ensures
            final(self).spec_inv(),
            final(self).spec_id() == old(self).spec_id(),
            match r {
                Ok(()) => has_key(old(self).spec_entries(), id) && final(self).spec_entries()
                    == spec_estimate(old(self).spec_entries(), id, point@),
                Err(e) => e is NotFound && !has_key(old(self).spec_entries(), id)
                    && final(self).spec_entries() == old(self).spec_entries(),
            },
    ;
}

} // verus!
