//! The concurrent identifier index.
//!
//! Both registry levels (sessions, and the peer connections inside one
//! session) key their entries by an opaque identifier string. The index
//! itself is a `dashmap::DashMap` from identifier to the slot the entry
//! occupies in its owner's arena, so that unrelated identifiers can be
//! looked up without contending on one global lock. The map is external
//! code; the few operations the core calls are wrapped here with the
//! contracts that `dashmap`'s source shows, and everything built on top of
//! them is verified.

use vstd::prelude::*;

verus! {

#[verifier::external_type_specification]
#[verifier::external_body]
#[verifier::reject_recursive_types(K)]
#[verifier::reject_recursive_types(V)]
#[verifier::reject_recursive_types(S)]
pub struct ExDashMap<K, V, S>(dashmap::DashMap<K, V, S>);

/// What an identifier index holds: the slot recorded under each identifier.
pub uninterp spec fn id_index_view(m: dashmap::DashMap<String, usize>) -> Map<Seq<char>, usize>;

/// Relies on `dashmap::DashMap::new`: a freshly created map holds nothing.
#[verifier::external_body]
pub fn id_index_new() -> (m: dashmap::DashMap<String, usize>)
    ensures
        id_index_view(m).dom() == Set::<Seq<char>>::empty(),
{
    dashmap::DashMap::new()
}

/// Relies on `dashmap::DashMap::insert`: the value is recorded under the
/// key, every other entry is kept.
#[verifier::external_body]
pub fn id_index_insert(m: &mut dashmap::DashMap<String, usize>, key: &String, slot: usize)
    ensures
        id_index_view(*final(m)) == id_index_view(*old(m)).insert(key@, slot),
{
    m.insert(key.clone(), slot);
}

/// Relies on `dashmap::DashMap::get`: the slot recorded under the key, or
/// `None` when the key is absent.
#[verifier::external_body]
pub fn id_index_get(m: &dashmap::DashMap<String, usize>, key: &String) -> (r: Option<usize>)
    ensures
        r == (if id_index_view(*m).dom().contains(key@) {
            Some(id_index_view(*m)[key@])
        } else {
            None::<usize>
        }),
{
    m.get(key).map(|slot| *slot)
}

} // verus!
