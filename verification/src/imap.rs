use vstd::prelude::*;

use crate::collection::has_key;
use crate::item::{BacklogItem, ItemModel};

verus! {

#[verifier::external_type_specification]
#[verifier::external_body]
#[verifier::reject_recursive_types(K)]
#[verifier::reject_recursive_types(V)]
#[verifier::reject_recursive_types(S)]
pub struct ExIndexMap<K, V, S>(indexmap::IndexMap<K, V, S>);

/// What the map holds: its entries, in insertion order, each read as the
/// key beside the stored item's model.
pub uninterp spec fn imap_entries(m: indexmap::IndexMap<u128, BacklogItem>) -> Seq<
    (u128, ItemModel),
>;

/// Relies on indexmap's IndexMap::new: the new map is empty.
#[verifier::external_body]
pub(crate) fn imap_new() -> (m: indexmap::IndexMap<u128, BacklogItem>)
    ensures
        imap_entries(m) == Seq::<(u128, ItemModel)>::empty(),
{
    indexmap::IndexMap::new()
}

/// Relies on indexmap's IndexMap::len: the number of entries.
#[verifier::external_body]
pub(crate) fn imap_len(m: &indexmap::IndexMap<u128, BacklogItem>) -> (n: usize)
    ensures
        n == imap_entries(*m).len(),
{
    m.len()
}

/// Relies on indexmap's IndexMap::get: the value stored under the key, if the
/// key is present; the map never holds one key twice, so every entry under
/// the key shows the returned value.
#[verifier::external_body]
pub(crate) fn imap_get<'a>(m: &'a indexmap::IndexMap<u128, BacklogItem>, k: u128) -> (r: Option<
    &'a BacklogItem,
>)
    ensures
        match r {
            Some(v) => has_key(imap_entries(*m), k) && (forall|i: int|
                0 <= i < imap_entries(*m).len() && imap_entries(*m)[i].0 == k ==> imap_entries(
                    *m,
                )[i].1 == v@),
            None => !has_key(imap_entries(*m), k),
        },
{
    m.get(&k)
}

/// Relies on indexmap's IndexMap::get_mut: a mutable reference to the value
/// stored under the key; only that entry changes, and it ends up holding
/// whatever is left in the reference.
#[verifier::external_body]
pub(crate) fn imap_get_mut<'a>(m: &'a mut indexmap::IndexMap<u128, BacklogItem>, k: u128) -> (r:
    &'a mut BacklogItem)
    requires
        has_key(imap_entries(*old(m)), k),
    ensures
        imap_entries(*final(m)).len() == imap_entries(*old(m)).len(),
        forall|i: int|
            0 <= i < imap_entries(*old(m)).len() && imap_entries(*old(m))[i].0 != k
                ==> imap_entries(*final(m))[i] == imap_entries(*old(m))[i],
        forall|i: int|
            0 <= i < imap_entries(*old(m)).len() && imap_entries(*old(m))[i].0 == k
                ==> imap_entries(*old(m))[i].1 == (*r)@ && imap_entries(*final(m))[i] == (
            k,
            (*final(r))@,
        ),
{
    m.get_mut(&k).unwrap()
}

/// Relies on indexmap's IndexMap::insert: an existing key keeps its place in
/// the order and its value is replaced, the old value coming back; a new key
/// lands at the end and None comes back.
#[verifier::external_body]
pub(crate) fn imap_insert(
    m: &mut indexmap::IndexMap<u128, BacklogItem>,
    k: u128,
    v: BacklogItem,
) -> (r: Option<BacklogItem>)
    ensures
        !has_key(imap_entries(*old(m)), k) ==> imap_entries(*final(m)) == imap_entries(
            *old(m),
        ).push((k, v@)) && r is None,
        has_key(imap_entries(*old(m)), k) ==> imap_entries(*final(m)).len() == imap_entries(
            *old(m),
        ).len(),
        forall|i: int|
            0 <= i < imap_entries(*old(m)).len() && imap_entries(*old(m))[i].0 != k
                ==> imap_entries(*final(m))[i] == imap_entries(*old(m))[i],
        forall|i: int|
            0 <= i < imap_entries(*old(m)).len() && imap_entries(*old(m))[i].0 == k
                ==> imap_entries(*final(m))[i] == (k, v@) && (r matches Some(p) && p@
                == imap_entries(*old(m))[i].1),
{
    m.insert(k, v)
}

/// Relies on indexmap's IndexMap::get_index: the entry at the position, in
/// insertion order, for positions below the length.
#[verifier::external_body]
pub(crate) fn imap_get_index<'a>(m: &'a indexmap::IndexMap<u128, BacklogItem>, i: usize) -> (r:
    Option<(u128, &'a BacklogItem)>)
    ensures
        match r {
            Some(p) => i < imap_entries(*m).len() && imap_entries(*m)[i as int] == (p.0, p.1@),
            None => i >= imap_entries(*m).len(),
        },
{
    match m.get_index(i) {
        Some((k, v)) => Some((*k, v)),
        None => None,
    }
}

} // verus!
