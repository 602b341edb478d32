use vstd::prelude::*;

use crate::collection::{
    entries_ok, entry_models, has_key, key_index, lemma_assign_preserves_ok, spec_add,
    spec_add_all, spec_assign, spec_find,
};
use crate::item::ItemModel;

verus! {

/// Law: after assigning an assignee to a present item, finding that item
/// yields one whose assignee equals the assigned value; assigning again with
/// another value overwrites it, last write wins, with no error.
pub proof fn lemma_assign_then_find(
    s: Seq<(u128, ItemModel)>,
    id: u128,
    first: Seq<char>,
    second: Seq<char>,
)
    requires
        entries_ok(s),
        has_key(s, id),
    ensures
        spec_find(spec_assign(s, id, first), id) matches Some(m) && m.assignee == Some(first),
        spec_find(spec_assign(spec_assign(s, id, first), id, second), id) matches Some(m)
            && m.assignee == Some(second),
{
    lemma_assign_preserves_ok(s, id, first);
    let t = spec_assign(s, id, first);
    lemma_assign_preserves_ok(t, id, second);
}

/// Law: a backlog's entries, decomposed into the item models in order and
/// rebuilt by adding each in turn into an empty collection, come back
/// unchanged: the count, the order and every field of every item survive the
/// round trip.
pub proof fn lemma_parts_round_trip(s: Seq<(u128, ItemModel)>)
    requires
        entries_ok(s),
    ensures
        spec_add_all(Seq::<(u128, ItemModel)>::empty(), entry_models(s)) == s,
    decreases s.len(),
{
    let ms = entry_models(s);
    if s.len() == 0 {
        assert(ms =~= Seq::<ItemModel>::empty());
        assert(spec_add_all(Seq::<(u128, ItemModel)>::empty(), ms) =~= s);
    } else {
        let pre = s.drop_last();
        let last = s.last();
        assert(entries_ok(pre)) by {
            assert(forall|i: int| 0 <= i < pre.len() ==> pre[i] == s[i]);
        }
        lemma_parts_round_trip(pre);
        assert(entry_models(pre) =~= ms.drop_last());
        assert(ms.last() == last.1);
        assert(spec_add_all(Seq::<(u128, ItemModel)>::empty(), ms) == spec_add(pre, last.1));
        assert(last.0 == last.1.id);
        assert(!has_key(pre, last.1.id)) by {
            if has_key(pre, last.1.id) {
                let j = key_index(pre, last.1.id);
                assert(0 <= j < pre.len() && pre[j].0 == last.1.id);
                assert(s[j].0 == s[s.len() - 1].0);
            }
        }
        assert(spec_add(pre, last.1) == pre.push((last.1.id, last.1)));
        assert(pre.push((last.1.id, last.1)) =~= s);
    }
}

} // verus!
