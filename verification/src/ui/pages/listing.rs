//! The order in which a page lists the items of the document: by ascending id.
use itertools::Itertools;
use std::collections::HashMap;
use vstd::prelude::*;
use vstd::std_specs::hash::spec_keys_iter;
use vstd::std_specs::iter::IteratorSpec;

verus! {

broadcast use vstd::std_specs::hash::group_hash_axioms;

/// Whether each id of the sequence is below the ids behind it.
pub open spec fn strictly_ascending(ids: Seq<u32>) -> bool {
    forall|i: int, j: int| 0 <= i < j < ids.len() ==> ids[i] < ids[j]
}

/// Whether the sequence holds the ids of the set, each once, in ascending
/// order.
pub open spec fn lists_ascending(ids: Seq<u32>, keys: Set<u32>) -> bool {
    strictly_ascending(ids) && ids.to_set() == keys
}

/// The ids of a finite set in ascending order.
pub open spec fn ascending(keys: Set<u32>) -> Seq<u32> {
    choose|ids: Seq<u32>| lists_ascending(ids, keys)
}

/// A set of ids has one ascending order only.
pub proof fn lemma_ascending_is_unique(a: Seq<u32>, b: Seq<u32>)
    requires
        strictly_ascending(a),
        strictly_ascending(b),
        a.to_set() == b.to_set(),
    ensures
        a == b,
    decreases a.len(),
{
    if a.len() == 0 {
        if b.len() > 0 {
            assert(b.contains(b[0]));
            assert(a.to_set().contains(b[0]));
        }
        assert(a =~= b);
    } else {
        let top = a.last();
        assert(a.contains(top));
        assert(b.to_set().contains(top));
        let k = choose|k: int| 0 <= k < b.len() && b[k] == top;
        assert(b.contains(b.last()));
        assert(a.to_set().contains(b.last()));
        let m = choose|m: int| 0 <= m < a.len() && a[m] == b.last();
        assert(b.last() == top);
        let a_front = a.drop_last();
        let b_front = b.drop_last();
        assert forall|x: u32| a_front.to_set().contains(x) <==> b_front.to_set().contains(x) by {
            if a_front.contains(x) {
                let i = choose|i: int| 0 <= i < a_front.len() && a_front[i] == x;
                assert(a[i] == x && x < top);
                assert(a.contains(x));
                assert(b.to_set().contains(x));
                let j = choose|j: int| 0 <= j < b.len() && b[j] == x;
                assert(b_front[j] == x);
            }
            if b_front.contains(x) {
                let j = choose|j: int| 0 <= j < b_front.len() && b_front[j] == x;
                assert(b[j] == x && x < top);
                assert(b.contains(x));
                assert(a.to_set().contains(x));
                let i = choose|i: int| 0 <= i < a.len() && a[i] == x;
                assert(a_front[i] == x);
            }
        }
        assert(a_front.to_set() =~= b_front.to_set());
        lemma_ascending_is_unique(a_front, b_front);
        assert(a =~= a_front.push(top));
        assert(b =~= b_front.push(top));
    }
}

/// Returns the ids that the map holds, each once, in the order in which the
/// map hands them out.
fn keys_of<V>(map: &HashMap<u32, V>) -> (ids: Vec<u32>)
    ensures
        ids@.to_set() == map@.dom(),
        ids@.no_duplicates(),
{
    let mut ids: Vec<u32> = Vec::new();
    for key in it: map.keys()
        invariant
            it.seq() == spec_keys_iter(map).remaining(),
            ids@.len() == it.index(),
            forall|i: int| 0 <= i < ids@.len() ==> ids@[i] == *it.seq()[i],
    {
        ids.push(*key);
    }
    proof {
        let keys = spec_keys_iter(map).remaining();
        assert(ids@ =~= keys.unref());
        assert forall|i: int, j: int|
            0 <= i < ids@.len() && 0 <= j < ids@.len() && i != j implies ids@[i] != ids@[j] by {
            assert(keys[i] != keys[j]);
        }
    }
    ids
}

/// Sorts ids with `sorted` of itertools. Taken on trust from its
/// documentation: what comes out are the ids that went in, each as often as it
/// went in, in ascending order.
#[verifier::external_body]
fn sorted(ids: Vec<u32>) -> (sorted: Vec<u32>)
    ensures
        sorted@.to_multiset() == ids@.to_multiset(),
        forall|i: int, j: int| 0 <= i <= j < sorted@.len() ==> sorted@[i] <= sorted@[j],
{
    ids.into_iter().sorted().collect()
}

/// Returns the ids that the map holds in ascending order.
pub fn ascending_ids<V>(map: &HashMap<u32, V>) -> (ids: Vec<u32>)
    ensures
        ids@ == ascending(map@.dom()),
        lists_ascending(ids@, map@.dom()),
{
    let keys = keys_of(map);
    let ids = sorted(keys);
    proof {
        keys@.to_multiset_ensures();
        ids@.to_multiset_ensures();
        keys@.lemma_multiset_has_no_duplicates();
        ids@.lemma_multiset_has_no_duplicates_conv();
        assert forall|id: u32| ids@.to_set().contains(id) <==> keys@.to_set().contains(id) by {
            assert(ids@.contains(id) <==> ids@.to_multiset().count(id) > 0);
            assert(keys@.contains(id) <==> keys@.to_multiset().count(id) > 0);
        }
        assert(ids@.to_set() =~= keys@.to_set());
        assert forall|i: int, j: int| 0 <= i < j < ids@.len() implies ids@[i] < ids@[j] by {
            assert(ids@[i] != ids@[j]);
        }
        assert(lists_ascending(ids@, map@.dom()));
        lemma_ascending_is_unique(ids@, ascending(map@.dom()));
    }
    ids
}

} // verus!
