//! Hash maps with the FNV hasher (the `fnv` crate), keyed by integers.
use vstd::prelude::*;

verus! {

/// The hasher of [`fnv::FnvHashMap`].
#[verifier::external_type_specification]
#[verifier::external_body]
pub struct ExFnvHasher(fnv::FnvHasher);

/// The builder of hashers that [`fnv::FnvHashMap`] is made with.
#[verifier::external_type_specification]
#[verifier::external_body]
#[verifier::reject_recursive_types(H)]
pub struct ExBuildHasherDefault<H>(std::hash::BuildHasherDefault<H>);

/// The integer types that key the maps of this library.
pub trait IntKey: std::hash::Hash + Eq {}

impl IntKey for usize {}

impl IntKey for u64 {}

/// `HashMap::insert` on an [`fnv::FnvHashMap`] keyed by integers: the map
/// afterwards maps `k` to `v` and is otherwise unchanged (the FNV hasher is
/// deterministic and integers compare by value, so the map behaves as a map).
#[verifier::external_body]
pub(crate) fn fnv_insert<K: IntKey, V>(m: &mut fnv::FnvHashMap<K, V>, k: K, v: V)
    ensures
        final(m)@ == old(m)@.insert(k, v),
{
    m.insert(k, v);
}

/// `HashMap::get` on an [`fnv::FnvHashMap`] keyed by integers: the value
/// that the map holds for `k`, if any.
#[verifier::external_body]
pub(crate) fn fnv_get<K: IntKey, V>(m: &fnv::FnvHashMap<K, V>, k: K) -> (r: Option<&V>)
    ensures
        match r {
            Some(v) => m@.contains_key(k) && *v == m@[k],
            None => !m@.contains_key(k),
        },
{
    m.get(&k)
}

/// The elements of the set that `m` holds for `k`, if it holds one:
/// `HashMap::get`, then the elements that `HashSet::iter` yields. They come
/// in the order of the set's hash table, which nothing here states: only
/// that each element of the set comes exactly once.
#[verifier::external_body]
pub(crate) fn fnv_set_items(m: &fnv::FnvHashMap<u64, fnv::FnvHashSet<u64>>, k: u64) -> (r: Option<Vec<u64>>)
    ensures
        match r {
            Some(v) => m@.contains_key(k) && v@.to_set() == m@[k]@ && v@.no_duplicates(),
            None => !m@.contains_key(k),
        },
{
    m.get(&k).map(|s| s.iter().copied().collect())
}

/// `m.entry(k).or_default().insert(x)`: the set that `m` holds for `k`
/// (an empty one where it holds none) gets `x`; whether `x` was new to it.
/// The other keys keep their sets (integers compare by value and the FNV
/// hasher is deterministic, so the maps and sets behave as such).
#[verifier::external_body]
pub(crate) fn fnv_set_add(m: &mut fnv::FnvHashMap<u64, fnv::FnvHashSet<u64>>, k: u64, x: u64) -> (r: bool)
    ensures
        ({
            let before = if old(m)@.contains_key(k) { old(m)@[k]@ } else { Set::<u64>::empty() };
            &&& final(m)@.dom() == old(m)@.dom().insert(k)
            &&& final(m)@[k]@ == before.insert(x)
            &&& forall|j: u64| j != k && old(m)@.contains_key(j) ==> #[trigger] final(m)@[j] == old(m)@[j]
            &&& r == !before.contains(x)
        }),
{
    m.entry(k).or_default().insert(x)
}

} // verus!
