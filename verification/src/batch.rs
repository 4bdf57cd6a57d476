//! Batches of requests: the entries of a batch in the order of their keys.

use vstd::prelude::*;
use vstd::std_specs::btree::{increasing_seq, spec_btree_map_iter};
use vstd::std_specs::iter::IteratorSpec;
use vstd::std_specs::cmp::OrdSpec;
use std::collections::BTreeMap;
use crate::types::{BatchKey, DeveloperDocumentId, Version};

verus! {

/// Whether `order` lists the keys of `keys` once each, rising.
pub open spec fn is_key_order(order: Seq<BatchKey>, keys: Set<BatchKey>) -> bool {
    &&& forall|i: int, j: int| 0 <= i < j < order.len() ==> order[i] < order[j]
    &&& forall|i: int| 0 <= i < order.len() ==> keys.contains(#[trigger] order[i])
    &&& forall|k: BatchKey| keys.contains(k) ==> order.contains(k)
}

/// The keys of `keys` once each, rising.
pub open spec fn key_order(keys: Set<BatchKey>) -> Seq<BatchKey> {
    choose|order: Seq<BatchKey>| is_key_order(order, keys)
}

/// A set of keys has one rising order only.
pub proof fn lemma_key_order_unique(a: Seq<BatchKey>, b: Seq<BatchKey>, keys: Set<BatchKey>)
    requires
        is_key_order(a, keys),
        is_key_order(b, keys),
    ensures
        a == b,
    decreases a.len(),
{
    if a.len() == 0 {
        if b.len() > 0 {
            assert(keys.contains(b[0]));
            assert(a.contains(b[0]));
        }
        assert(a =~= b);
    } else {
        let m = a.last();
        assert(keys.contains(a[a.len() - 1]));
        assert(b.contains(m));
        let j = choose|j: int| 0 <= j < b.len() && b[j] == m;
        if j < b.len() - 1 {
            let top = b[b.len() - 1];
            assert(keys.contains(top));
            assert(a.contains(top));
            let i = choose|i: int| 0 <= i < a.len() && a[i] == top;
            assert(i == a.len() - 1 || a[i] < a[a.len() - 1]);
            assert(b[j] < b[b.len() - 1]);
        }
        let rest = keys.remove(m);
        let a0 = a.drop_last();
        let b0 = b.drop_last();
        assert forall|k: BatchKey| rest.contains(k) implies a0.contains(k) by {
            assert(a.contains(k));
            let i = choose|i: int| 0 <= i < a.len() && a[i] == k;
            assert(a0[i] == k);
        }
        assert forall|k: BatchKey| rest.contains(k) implies b0.contains(k) by {
            assert(b.contains(k));
            let i = choose|i: int| 0 <= i < b.len() && b[i] == k;
            assert(b0[i] == k);
        }
        assert forall|i: int| 0 <= i < a0.len() implies rest.contains(#[trigger] a0[i]) by {
            assert(keys.contains(a[i]));
            assert(a[i] < a[a.len() - 1]);
        }
        assert forall|i: int| 0 <= i < b0.len() implies rest.contains(#[trigger] b0[i]) by {
            assert(keys.contains(b[i]));
            assert(b[i] < b[b.len() - 1]);
        }
        lemma_key_order_unique(a0, b0, rest);
        assert(a =~= a0.push(m));
        assert(b =~= b0.push(m));
    }
}

/// The keys of a batch in the order in which the batch is worked off.
pub fn batch_keys(ids: &BTreeMap<BatchKey, (DeveloperDocumentId, Option<Version>)>) -> (order: Vec<
    BatchKey,
>)
    ensures
        is_key_order(order@, ids@.dom()),
        order@ == key_order(ids@.dom()),
{
    broadcast use vstd::std_specs::btree::group_btree_axioms;
    broadcast use vstd::laws_cmp::group_laws_cmp;

    let mut order: Vec<BatchKey> = Vec::new();
    let ghost all = spec_btree_map_iter(ids).remaining();
    let ghost all_keys = all.map_values(
        |kv: (&BatchKey, &(DeveloperDocumentId, Option<Version>))| *kv.0,
    );
    for entry in it: ids.iter()
        invariant
            all == spec_btree_map_iter(ids).remaining(),
            all_keys == all.map_values(
                |kv: (&BatchKey, &(DeveloperDocumentId, Option<Version>))| *kv.0,
            ),
            it.seq() == all,
            increasing_seq(all_keys),
            order.len() == it.index(),
            forall|i: int| 0 <= i < order.len() ==> order[i] == #[trigger] all_keys[i],
    {
        order.push(*entry.0);
    }
    proof {
        assert(order@ =~= all_keys);
        vstd::std_specs::btree::axiom_increasing_seq_meaning(all_keys);
        assert forall|i: int, j: int| 0 <= i < j < order.len() implies order[i] < order[j] by {
            assert(all_keys[i].cmp_spec(&all_keys[j]) is Less);
        }
        assert forall|k: BatchKey| ids@.dom().contains(k) implies order@.contains(k) by {
            let pair = (&k, &ids@[k]);
            assert(all.contains(pair));
            let i = choose|i: int| 0 <= i < all.len() && all[i] == pair;
            assert(all_keys[i] == k);
        }
        assert forall|i: int| 0 <= i < order.len() implies ids@.dom().contains(
            #[trigger] order[i],
        ) by {
            assert(ids@.contains_key(*all[i].0));
        }
        assert(is_key_order(order@, ids@.dom()));
        lemma_key_order_unique(order@, key_order(ids@.dom()), ids@.dom());
    }
    order
}

/// The request filed under a key of a batch.
pub fn request_of(
    ids: &BTreeMap<BatchKey, (DeveloperDocumentId, Option<Version>)>,
    key: BatchKey,
) -> (request: Option<(DeveloperDocumentId, Option<Version>)>)
    ensures
        request == if ids@.contains_key(key) {
            Some(ids@[key])
        } else {
            None
        },
{
    broadcast use vstd::std_specs::btree::group_btree_axioms;
    broadcast use vstd::laws_cmp::group_laws_cmp;

    match ids.get(&key) {
        Some(request) => Some(*request),
        None => None,
    }
}

/// Files a value under a key, in place of what was filed there before.
pub fn file_under<V>(results: &mut BTreeMap<BatchKey, V>, key: BatchKey, value: V)
    ensures
        final(results)@ == old(results)@.insert(key, value),
{
    broadcast use vstd::std_specs::btree::group_btree_axioms;
    broadcast use vstd::laws_cmp::group_laws_cmp;

    results.insert(key, value);
}

/// Takes out what is filed under a key.
pub fn take_from<V>(results: &mut BTreeMap<BatchKey, V>, key: BatchKey) -> (taken: Option<V>)
    ensures
        final(results)@ == old(results)@.remove(key),
        taken == if old(results)@.contains_key(key) {
            Some(old(results)@[key])
        } else {
            None
        },
{
    broadcast use vstd::std_specs::btree::group_btree_axioms;
    broadcast use vstd::laws_cmp::group_laws_cmp;

    results.remove(&key)
}

} // verus!
