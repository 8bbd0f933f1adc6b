use vstd::prelude::*;
use std::collections::HashMap;
use std::hash::Hash;

verus! {

broadcast use vstd::std_specs::hash::group_hash_axioms;

/// The keys of a map, each once.
pub fn keys_of<K: Copy + Hash + Eq, V>(m: &HashMap<K, V>) -> (r: Vec<K>)
    requires
        vstd::std_specs::hash::obeys_key_model::<K>(),
    ensures
        r@.no_duplicates(),
        r@.to_set() == m@.dom(),
{
    let mut r: Vec<K> = Vec::new();
    for k in it: m.keys()
        invariant
            r@.len() == it.index(),
            it.seq().unref().to_set() == m@.dom(),
            it.seq().unref().no_duplicates(),
            forall|j: int| 0 <= j < it.index() ==> r@[j] == *it.seq()[j],
        ensures
            r@ =~= it.seq().unref(),
    {
        r.push(*k);
    }
    r
}

} // verus!
