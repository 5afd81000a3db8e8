//! Build-once, read-many resource registries.
//!
//! Each registry maps a closed set of logical identifiers to built GPU
//! resources. The build phase registers each key once; afterwards the
//! registry is read only. Registering a key that is already present changes
//! nothing, so a binding, once made, lasts for the registry's lifetime.
//!
//! The registries store their entries as association lists with unique keys;
//! the spec functions and lemmas here give them their meaning as maps.

use vstd::prelude::*;

pub mod mesh_registry;
pub mod shader_registry;
pub mod texture_registry;

verus! {

/// The map an association list denotes (later entries would shadow earlier
/// ones; with unique keys the order never matters).
pub open spec fn assoc_map<K, V>(s: Seq<(K, V)>) -> Map<K, V>
    decreases s.len(),
{
    if s.len() == 0 {
        Map::empty()
    } else {
        assoc_map(s.drop_last()).insert(s.last().0, s.last().1)
    }
}

/// No key occurs twice.
pub open spec fn unique_keys<K, V>(s: Seq<(K, V)>) -> bool {
    forall|i: int, j: int| 0 <= i < j < s.len() ==> s[i].0 != s[j].0
}

/// A key is in the map exactly when some entry carries it.
pub proof fn lemma_assoc_map_domain<K, V>(s: Seq<(K, V)>, k: K)
    ensures
        assoc_map(s).contains_key(k) <==> exists|i: int| 0 <= i < s.len() && s[i].0 == k,
    decreases s.len(),
{
    if s.len() > 0 {
        lemma_assoc_map_domain(s.drop_last(), k);
        if s.last().0 == k {
            assert(s[s.len() - 1].0 == k);
        } else if assoc_map(s).contains_key(k) {
            let i = choose|i: int| 0 <= i < s.drop_last().len() && s.drop_last()[i].0 == k;
            assert(s[i].0 == k);
        } else if exists|i: int| 0 <= i < s.len() && s[i].0 == k {
            let i = choose|i: int| 0 <= i < s.len() && s[i].0 == k;
            assert(s.drop_last()[i].0 == k);
        }
    }
}

/// With unique keys, the entry at index `i` gives the map's value at its key.
pub proof fn lemma_assoc_map_get<K, V>(s: Seq<(K, V)>, i: int)
    requires
        unique_keys(s),
        0 <= i < s.len(),
    ensures
        assoc_map(s).contains_key(s[i].0),
        assoc_map(s)[s[i].0] == s[i].1,
    decreases s.len(),
{
    if i < s.len() - 1 {
        lemma_assoc_map_get(s.drop_last(), i);
        assert(s.drop_last()[i] == s[i]);
    }
}

/// Appending an entry inserts its binding.
pub proof fn lemma_assoc_map_push<K, V>(s: Seq<(K, V)>, k: K, v: V)
    ensures
        assoc_map(s.push((k, v))) == assoc_map(s).insert(k, v),
{
    assert(s.push((k, v)).drop_last() =~= s);
}

/// What registering a binding means: a key that is already present keeps its
/// resource; a new key is bound.
pub open spec fn spec_register<K, V>(m: Map<K, V>, k: K, v: V) -> Map<K, V> {
    if m.contains_key(k) {
        m
    } else {
        m.insert(k, v)
    }
}

/// Building the same identifier twice is not observable: the second
/// registration — whatever resource it carries — changes nothing.
pub proof fn lemma_register_idempotent<K, V>(m: Map<K, V>, k: K, v: V, w: V)
    ensures
        spec_register(spec_register(m, k, v), k, w) == spec_register(m, k, v),
{
}

/// A key bound during build keeps its resource: no later registration
/// changes an existing binding, so lookups return the same resource for the
/// registry's lifetime.
pub proof fn lemma_register_preserves<K, V>(m: Map<K, V>, k: K, v: V, k2: K)
    requires
        m.contains_key(k2),
    ensures
        spec_register(m, k, v).contains_key(k2),
        spec_register(m, k, v)[k2] == m[k2],
{
}

} // verus!
