//! Reading an ordered map in the order of its keys.

use std::collections::BTreeMap;
use vstd::prelude::*;
use vstd::std_specs::cmp::OrdSpec;
use vstd::std_specs::iter::IteratorSpec;

verus! {

/// Whether `keys` lists every member of `members` exactly once, smallest first.
pub open spec fn in_order(keys: Seq<u64>, members: Set<u64>) -> bool {
    &&& forall|i: int, j: int| 0 <= i < j < keys.len() ==> keys[i] < keys[j]
    &&& forall|k: u64| #[trigger] members.contains(k) <==> keys.contains(k)
}

/// Numbers are ordered lawfully, which is what a map keyed by them rests on.
pub proof fn numbers_are_keys()
    ensures
        vstd::laws_cmp::obeys_cmp::<u64>(),
        vstd::std_specs::btree::key_obeys_cmp_spec::<u64>(),
{
    broadcast use vstd::laws_cmp::group_laws_cmp;

}

/// The keys of an ordered map, smallest first.
pub fn keys_in_order<V>(map: &BTreeMap<u64, V>) -> (keys: Vec<u64>)
    ensures
        in_order(keys@, map@.dom()),
        keys@.len() == map@.dom().len(),
{
    broadcast use vstd::laws_cmp::group_laws_cmp;

    let mut keys: Vec<u64> = Vec::new();
    let entries = map.iter();
    let ghost all = entries.remaining();
    let ghost ordered = all.map_values(|kv: (&u64, &V)| *kv.0);
    assert(vstd::std_specs::btree::key_obeys_cmp_spec::<u64>());
    assert(all.len() == map@.dom().len());
    assert(vstd::std_specs::btree::increasing_seq(ordered));
    assert forall|i: int, j: int| 0 <= i < j < all.len() implies *all[i].0 < *all[j].0 by {
        assert(ordered[i] == *all[i].0);
        assert(ordered[j] == *all[j].0);
        assert(ordered[i].cmp_spec(&ordered[j]) is Less);
    }
    for entry in it: entries
        invariant
            it.seq() == all,
            keys@.len() == it.index(),
            forall|i: int| 0 <= i < keys@.len() ==> keys@[i] == *(#[trigger] all[i]).0,
    {
        keys.push(*entry.0);
    }
    assert forall|i: int, j: int| 0 <= i < j < keys@.len() implies keys@[i] < keys@[j] by {
        assert(keys@[i] == *all[i].0);
        assert(keys@[j] == *all[j].0);
    }
    assert forall|k: u64| #[trigger] map@.dom().contains(k) <==> keys@.contains(k) by {
        if map@.contains_key(k) {
            let i = choose|i: int| 0 <= i < all.len() && all[i] == (&k, &map@[k]);
            assert(keys@[i] == k);
        }
        if keys@.contains(k) {
            let i = choose|i: int| 0 <= i < keys@.len() && keys@[i] == k;
            assert(map@.contains_key(*all[i].0));
        }
    }
    keys
}

/// Members are listed in order in one way only.
pub proof fn one_order(left: Seq<u64>, right: Seq<u64>, members: Set<u64>)
    requires
        in_order(left, members),
        in_order(right, members),
    ensures
        left == right,
    decreases left.len(),
{
    if left.len() == 0 {
        if right.len() > 0 {
            assert(right.contains(right[0]));
            assert(members.contains(right[0]));
            assert(left.contains(right[0]));
        }
    } else {
        assert(left.contains(left.last()));
        assert(members.contains(left.last()));
        assert(right.contains(left.last()));
        assert(right.contains(right.last()));
        assert(members.contains(right.last()));
        assert(left.contains(right.last()));
        let last = left.last();
        let i = choose|i: int| 0 <= i < right.len() && right[i] == last;
        let j = choose|j: int| 0 <= j < left.len() && left[j] == right.last();
        assert(last == right.last()) by {
            if i < right.len() - 1 {
                assert(right[i] < right[right.len() - 1]);
                assert(left[j] <= left[left.len() - 1]) by {
                    if j < left.len() - 1 {
                        assert(left[j] < left[left.len() - 1]);
                    }
                }
            }
        }
        let fewer = members.remove(last);
        assert forall|k: u64| #[trigger] fewer.contains(k) <==> left.drop_last().contains(k) by {
            all_but_the_last(left, members, k);
        }
        assert forall|k: u64| #[trigger] fewer.contains(k) <==> right.drop_last().contains(k) by {
            all_but_the_last(right, members, k);
        }
        one_order(left.drop_last(), right.drop_last(), fewer);
        assert(left =~= left.drop_last().push(last));
        assert(right =~= right.drop_last().push(last));
    }
}

proof fn all_but_the_last(keys: Seq<u64>, members: Set<u64>, k: u64)
    requires
        in_order(keys, members),
        keys.len() > 0,
    ensures
        members.remove(keys.last()).contains(k) <==> keys.drop_last().contains(k),
{
    let earlier = keys.drop_last();
    if earlier.contains(k) {
        let i = choose|i: int| 0 <= i < earlier.len() && earlier[i] == k;
        assert(keys[i] == k);
        assert(keys.contains(k));
        assert(keys[i] < keys[keys.len() - 1]);
    }
    if members.remove(keys.last()).contains(k) {
        assert(keys.contains(k));
        let i = choose|i: int| 0 <= i < keys.len() && keys[i] == k;
        assert(earlier[i] == k);
    }
}

} // verus!
