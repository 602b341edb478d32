use vstd::prelude::*;

use crate::collection::{
    entries_ok, has_key, item_models, key_index, lemma_add_preserves_ok, lemma_key_index_unique,
    spec_add, spec_add_all, spec_assign, spec_estimate, AddItem, AssignableFromCollection,
    EstimatableFromCollection, FindFromCollection,
};
use crate::entity::{Assignable, Entity, Estimatable};
use crate::error::{BacklogError, BacklogResult};
use crate::imap::{
    imap_entries, imap_get, imap_get_index, imap_get_mut, imap_insert, imap_len, imap_new,
};
use crate::types::{Assignee, StoryPoint};
use crate::item::{fresh_id, lemma_assign_keeps_rest, lemma_estimate_keeps_rest, BacklogItem, ItemModel};

verus! {

/// The mathematical value of a backlog: its identity and its entries, in
/// insertion order.
#[verifier::ext_equal]
pub ghost struct BacklogModel {
    pub id: u128,
    pub items: Seq<(u128, ItemModel)>,
}

/// The aggregate root: the sole owner of an ordered, identity-keyed
/// collection of backlog items, and the unit of persistence.
#[derive(Debug)]
pub struct Backlog {
    id: u128,
    items: indexmap::IndexMap<u128, BacklogItem>,
}

impl View for Backlog {
    type V = BacklogModel;

    closed spec fn view(&self) -> BacklogModel {
        BacklogModel { id: self.id, items: imap_entries(self.items) }
    }
}

impl Backlog {
    /// The shape the aggregate keeps: keys are distinct and each entry sits
    /// under its item's identity. Every construction path establishes it and
    /// every operation preserves it.
    pub open spec fn wf(&self) -> bool {
        entries_ok(self@.items)
    }

    /// An empty backlog under a freshly drawn identity.
    pub fn new() -> (r: Self)
        ensures
            r.wf(),
            r@.items == Seq::<(u128, ItemModel)>::empty(),
    {
        Backlog { id: fresh_id(), items: imap_new() }
    }

    /// Rebuild a backlog from its parts: the identity, and the items in
    /// order, each stored under its own identity.
    pub fn from_parts(id: u128, items: Vec<BacklogItem>) -> (r: Self)
        ensures
            r.wf(),
            r@.id == id,
            r@.items == spec_add_all(Seq::<(u128, ItemModel)>::empty(), item_models(items@)),
    {
        let ghost all = item_models(items@);
        let mut b = Backlog { id, items: imap_new() };
        let mut rest = items;
        let ghost done: int = 0;
        while rest.len() > 0
            invariant
                b.wf(),
                b@.id == id,
                0 <= done <= all.len(),
                rest@ =~= items@.skip(done),
                all == item_models(items@),
                b@.items == spec_add_all(Seq::<(u128, ItemModel)>::empty(), all.take(done)),
            decreases rest@.len(),
        {
            let it = rest.remove(0);
            proof {
                assert(it == items@[done]);
                assert(rest@ =~= items@.skip(done + 1));
            }
            b.add_item(it);
            proof {
                assert(all.take(done + 1).drop_last() =~= all.take(done));
                assert(all.take(done + 1).last() == all[done]);
                assert(all[done] == it@);
                done = done + 1;
            }
        }
        proof {
            assert(all.take(done) =~= all);
        }
        b
    }

    /// The items, in insertion order; their models match the entries.
    pub fn items(&self) -> (r: Vec<BacklogItem>)
        ensures
            r@.len() == self@.items.len(),
            forall|i: int| 0 <= i < r@.len() ==> (#[trigger] r@[i])@ == self@.items[i].1,
    {
        let mut v: Vec<BacklogItem> = Vec::new();
        let n = imap_len(&self.items);
        let mut i: usize = 0;
        while i < n
            invariant
                i <= n,
                n == self@.items.len(),
                v@.len() == i,
                forall|j: int| 0 <= j < i ==> (#[trigger] v@[j])@ == self@.items[j].1,
            decreases n - i,
        {
            match imap_get_index(&self.items, i) {
                Some(p) => {
                    v.push(p.1.clone());
                },
                None => {
                    proof {
                        assert(false);
                    }
                },
            }
            i += 1;
        }
        v
    }
}

impl Default for Backlog {
    /// The default backlog is a new, empty one.
    fn default() -> (r: Self)
        ensures
            r.wf(),
            r@.items == Seq::<(u128, ItemModel)>::empty(),
    {
        Backlog::new()
    }
}

impl Clone for Backlog {
    /// The clone carries the same identity and, for a well-formed backlog,
    /// the same entries: the use cases mutate a fully owned copy.
    fn clone(&self) -> (r: Self)
        ensures
            r@.id == self@.id,
            self.wf() ==> (r@ == self@ && r.wf()),
    {
        let mut m = imap_new();
        let n = imap_len(&self.items);
        let mut i: usize = 0;
        while i < n
            invariant
                i <= n,
                n == self@.items.len(),
                self.wf() ==> imap_entries(m) == self@.items.take(i as int),
            decreases n - i,
        {
            match imap_get_index(&self.items, i) {
                Some(p) => {
                    let it = p.1.clone();
                    proof {
                        if self.wf() {
                            let cur = imap_entries(m);
                            if has_key(cur, p.0) {
                                let j = key_index(cur, p.0);
                                assert(0 <= j < cur.len() && cur[j].0 == p.0);
                                assert(self@.items[j].0 == self@.items[i as int].0);
                                assert(false);
                            }
                        }
                    }
                    let _prev = imap_insert(&mut m, p.0, it);
                    proof {
                        if self.wf() {
                            assert(imap_entries(m) =~= self@.items.take(i as int + 1));
                        }
                    }
                },
                None => {
                    proof {
                        assert(false);
                    }
                },
            }
            i += 1;
        }
        proof {
            if self.wf() {
                assert(self@.items.take(n as int) =~= self@.items);
            }
        }
        let r = Backlog { id: self.id, items: m };
        proof {
            if self.wf() {
                assert(r@ =~= self@);
            }
        }
        r
    }
}

impl Entity for Backlog {
    open spec fn spec_id(&self) -> u128 {
        self@.id
    }

    fn id(&self) -> u128 {
        self.id
    }
}

impl FindFromCollection for Backlog {
    open spec fn spec_entries(&self) -> Seq<(u128, ItemModel)> {
        self@.items
    }

    open spec fn spec_inv(&self) -> bool {
        self.wf()
    }

    fn len(&self) -> usize {
        imap_len(&self.items)
    }

    fn is_empty(&self) -> bool {
        imap_len(&self.items) == 0
    }

    fn find_by_id(&self, id: u128) -> Option<&BacklogItem> {
        let r = imap_get(&self.items, id);
        proof {
            let s = self@.items;
            if has_key(s, id) {
                let i = key_index(s, id);
                assert(0 <= i < s.len() && s[i].0 == id);
            }
        }
        r
    }
}

impl AddItem for Backlog {
    fn add_item(&mut self, item: BacklogItem) {
        let ghost s = self@.items;
        let ghost m = item@;
        let k = item.id();
        let _prev = imap_insert(&mut self.items, k, item);
        proof {
            lemma_add_preserves_ok(s, m);
            if has_key(s, k) {
                let i = key_index(s, k);
                assert(0 <= i < s.len() && s[i].0 == k);
                assert forall|j: int| 0 <= j < s.len() implies self@.items[j] == spec_add(s, m)[j] by {
                    if s[j].0 == k {
                        lemma_key_index_unique(s, k, j);
                    }
                }
                assert(self@.items =~= spec_add(s, m));
            } else {
                assert(self@.items =~= spec_add(s, m));
            }
        }
    }
}

impl AssignableFromCollection for Backlog {
    fn assign_item(&mut self, id: u128, assignee: Assignee) -> BacklogResult<()> {
        let present = imap_get(&self.items, id).is_some();
        if !present {
            return Err(BacklogError::not_found("BacklogItem does not found for the id"));
        }
        let ghost s = self@.items;
        let item = imap_get_mut(&mut self.items, id);
        let ghost v0 = *item;
        item.assign(assignee);
        proof {
            lemma_assign_keeps_rest(v0, assignee);
            let i = key_index(s, id);
            assert(0 <= i < s.len() && s[i].0 == id);
            assert forall|j: int| 0 <= j < s.len() implies self@.items[j] == spec_assign(
                s,
                id,
                assignee@,
            )[j] by {
                if s[j].0 == id {
                    lemma_key_index_unique(s, id, j);
                }
            }
            assert(self@.items =~= spec_assign(s, id, assignee@));
            crate::collection::lemma_assign_preserves_ok(s, id, assignee@);
        }
        Ok(())
    }
}

impl EstimatableFromCollection for Backlog {
    fn estimate_item(&mut self, id: u128, point: StoryPoint) -> BacklogResult<()> {
        let present = imap_get(&self.items, id).is_some();
        if !present {
            return Err(BacklogError::not_found("BacklogItem does not found for the id"));
        }
        let ghost s = self@.items;
        let item = imap_get_mut(&mut self.items, id);
        let ghost v0 = *item;
        item.estimate(point);
        proof {
            lemma_estimate_keeps_rest(v0, point);
            let i = key_index(s, id);
            assert(0 <= i < s.len() && s[i].0 == id);
            assert forall|j: int| 0 <= j < s.len() implies self@.items[j] == spec_estimate(
                s,
                id,
                point@,
            )[j] by {
                if s[j].0 == id {
                    lemma_key_index_unique(s, id, j);
                }
            }
            assert(self@.items =~= spec_estimate(s, id, point@));
            crate::collection::lemma_estimate_preserves_ok(s, id, point@);
        }
        Ok(())
    }
}

} // verus!
