//! The index from entity ids to dense slots, held in an `ahash::AHashMap`.
use vstd::prelude::*;

verus! {

#[verifier::external_type_specification]
#[verifier::external_body]
#[verifier::reject_recursive_types(K)]
#[verifier::reject_recursive_types(V)]
#[verifier::reject_recursive_types(S)]
pub struct ExAHashMap<K, V, S>(ahash::AHashMap<K, V, S>);

#[verifier::external_type_specification]
#[verifier::external_body]
pub struct ExRandomState(ahash::RandomState);

/// A map from entity ids to dense slots.
pub type IdIndex = ahash::AHashMap<u64, usize>;

/// The key/value pairs held by an id index.
pub uninterp spec fn index_entries(m: ahash::AHashMap<u64, usize>) -> Map<u64, usize>;

/// Relies on `ahash::AHashMap::with_capacity`: a new map holds no entries.
#[verifier::external_body]
pub(crate) fn index_with_capacity(cap: usize) -> (r: IdIndex)
    ensures
        index_entries(r).dom().is_empty(),
{
    ahash::AHashMap::with_capacity(cap)
}

/// Relies on `ahash::AHashMap::get`: the value stored under `k`, if any.
#[verifier::external_body]
pub(crate) fn index_get(m: &IdIndex, k: u64) -> (r: Option<usize>)
    ensures
        r == (if index_entries(*m).contains_key(k) {
            Some(index_entries(*m)[k])
        } else {
            None::<usize>
        }),
{
    m.get(&k).copied()
}

/// Relies on `ahash::AHashMap::insert`: `k` maps to `v` afterwards, every other
/// entry stays, and the value `k` had before is returned.
#[verifier::external_body]
pub(crate) fn index_insert(m: &mut IdIndex, k: u64, v: usize) -> (r: Option<usize>)
    ensures
        index_entries(*final(m)) == index_entries(*old(m)).insert(k, v),
        r == (if index_entries(*old(m)).contains_key(k) {
            Some(index_entries(*old(m))[k])
        } else {
            None::<usize>
        }),
{
    m.insert(k, v)
}

/// Relies on `ahash::AHashMap::remove`: `k` has no entry afterwards, every
/// other entry stays, and the value `k` had before is returned.
#[verifier::external_body]
pub(crate) fn index_remove(m: &mut IdIndex, k: u64) -> (r: Option<usize>)
    ensures
        index_entries(*final(m)) == index_entries(*old(m)).remove(k),
        r == (if index_entries(*old(m)).contains_key(k) {
            Some(index_entries(*old(m))[k])
        } else {
            None::<usize>
        }),
{
    m.remove(&k)
}

} // verus!
