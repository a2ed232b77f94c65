//! Diffs of ordered maps and sets.
//!
//! The diff of two maps splits their entries three ways: entries
//! common to both (values kept as a before/after leaf), entries only
//! in the after map, and entries only in the before map. The diff of
//! two sets splits the same way, without values. Keys and values are
//! held by reference into the two compared containers.

use vstd::prelude::*;
use vstd::std_specs::cmp::PartialEqSpec;
use vstd::std_specs::iter::IteratorSpec;
use std::collections::BTreeMap;
use std::collections::BTreeSet;
use crate::diffable::Diffable;
use crate::leaf::Leaf;

verus! {

broadcast use vstd::std_specs::btree::group_btree_axioms, vstd::laws_cmp::group_laws_cmp;

/// A diff of two ordered sets.
///
/// The diff contains three elements:
///
/// - `common`: entries that are present in both sets.
/// - `added`: entries present in `after`, but not in `before`.
/// - `removed`: entries present in `before`, but not in `after`.
#[derive(Debug, PartialEq, Eq)]
pub struct BTreeSetDiff<'daft, K: Ord> {
    /// Entries common to both sets.
    pub common: BTreeSet<&'daft K>,
    /// Entries present in the `after` set, but not in `before`.
    pub added: BTreeSet<&'daft K>,
    /// Entries present in the `before` set, but not in `after`.
    pub removed: BTreeSet<&'daft K>,
}

impl<'daft, K: Ord> BTreeSetDiff<'daft, K> {
    /// Create a new, empty diff.
    pub fn new() -> (d: Self)
        ensures
            d.common@ == Set::<&'daft K>::empty(),
            d.added@ == Set::<&'daft K>::empty(),
            d.removed@ == Set::<&'daft K>::empty(),
    {
        BTreeSetDiff { common: BTreeSet::new(), added: BTreeSet::new(), removed: BTreeSet::new() }
    }
}

/// A diff of two ordered maps.
///
/// The diff contains three elements:
///
/// - `common`: entries that are present in both maps, with their
///   values stored as a [`Leaf`].
/// - `added`: entries present in `after`, but not in `before`.
/// - `removed`: entries present in `before`, but not in `after`.
#[derive(Debug, PartialEq, Eq)]
pub struct BTreeMapDiff<'daft, K: Ord, V> {
    /// Entries common to both maps.
    ///
    /// Values are stored as `Leaf`s to references.
    pub common: BTreeMap<&'daft K, Leaf<&'daft V>>,
    /// Entries present in the `after` map, but not in `before`.
    pub added: BTreeMap<&'daft K, &'daft V>,
    /// Entries present in the `before` map, but not in `after`.
    pub removed: BTreeMap<&'daft K, &'daft V>,
}

impl<'daft, K: Ord, V> BTreeMapDiff<'daft, K, V> {
    /// Create a new, empty diff.
    pub fn new() -> (d: Self)
        ensures
            d.common@ == Map::<&'daft K, Leaf<&'daft V>>::empty(),
            d.added@ == Map::<&'daft K, &'daft V>::empty(),
            d.removed@ == Map::<&'daft K, &'daft V>::empty(),
    {
        BTreeMapDiff { common: BTreeMap::new(), added: BTreeMap::new(), removed: BTreeMap::new() }
    }
}

impl<'daft, K: Ord, V: Eq> BTreeMapDiff<'daft, K, V> {
    /// The unchanged entries: shared keys whose before and after
    /// values compare equal, with that value, in key order.
    pub fn unchanged(&self) -> (pairs: Vec<(&'daft K, &'daft V)>)
        requires
            vstd::laws_cmp::obeys_cmp::<K>(),
        ensures
            V::obeys_eq_spec() ==> {
                &&& forall|i: int|
                    0 <= i < pairs@.len() ==> self.common@.contains_key(
                        (#[trigger] pairs@[i]).0,
                    ) && *self.common@[pairs@[i].0].before == *pairs@[i].1
                        && self.common@[pairs@[i].0].before.eq_spec(
                        &self.common@[pairs@[i].0].after,
                    )
                &&& forall|k: &'daft K|
                    #[trigger] self.common@.contains_key(k) && self.common@[k].before.eq_spec(
                        &self.common@[k].after,
                    ) ==> exists|i: int| 0 <= i < pairs@.len() && (#[trigger] pairs@[i]).0 == k
            },
    {
        let ghost eq_ok = <V as vstd::std_specs::cmp::PartialEqSpec>::obeys_eq_spec();
        let ghost full = vstd::std_specs::btree::spec_btree_map_iter(&self.common).remaining();
        let mut pairs: Vec<(&'daft K, &'daft V)> = Vec::new();
        for pair in it: self.common.iter()
            invariant
                vstd::laws_cmp::obeys_cmp::<K>(),
                eq_ok == <V as vstd::std_specs::cmp::PartialEqSpec>::obeys_eq_spec(),
                it.seq() == full,
                forall|j: int|
                    0 <= j < full.len() ==> self.common@.contains_key(*(#[trigger] full[j]).0)
                        && self.common@[*full[j].0] == *full[j].1,
                eq_ok ==> {
                    &&& forall|i: int|
                        0 <= i < pairs@.len() ==> self.common@.contains_key(
                            (#[trigger] pairs@[i]).0,
                        ) && *self.common@[pairs@[i].0].before == *pairs@[i].1
                            && self.common@[pairs@[i].0].before.eq_spec(
                            &self.common@[pairs@[i].0].after,
                        )
                    &&& forall|j: int|
                        0 <= j < it.index() && (#[trigger] full[j]).1.before.eq_spec(
                            &full[j].1.after,
                        ) ==> exists|i: int|
                            0 <= i < pairs@.len() && (#[trigger] pairs@[i]).0 == *full[j].0
                },
        {
            let ghost pos = it.index();
            let ghost entry_pairs = pairs@;
            proof {
                assert(pair == full[pos]);
            }
            let (k, leaf) = pair;
            if leaf.is_unchanged() {
                pairs.push((*k, leaf.before));
            }
            proof {
                if eq_ok {
                    assert forall|j: int|
                        0 <= j <= pos && (#[trigger] full[j]).1.before.eq_spec(
                            &full[j].1.after,
                        ) implies exists|i: int|
                        0 <= i < pairs@.len() && (#[trigger] pairs@[i]).0 == *full[j].0 by {
                        if j < pos {
                            let i = choose|i: int|
                                0 <= i < entry_pairs.len() && (#[trigger] entry_pairs[i]).0
                                    == *full[j].0;
                            assert(pairs@[i] == entry_pairs[i]);
                        } else {
                            assert(pairs@[pairs@.len() - 1].0 == *full[j].0);
                        }
                    }
                }
            }
        }
        proof {
            if eq_ok {
                assert forall|k: &'daft K|
                    #[trigger] self.common@.contains_key(k) && self.common@[k].before.eq_spec(
                        &self.common@[k].after,
                    ) implies exists|i: int|
                    0 <= i < pairs@.len() && (#[trigger] pairs@[i]).0 == k by {
                    assert(full.contains((&k, &self.common@[k])));
                    let j = choose|j: int|
                        0 <= j < full.len() && full[j] == (&k, &self.common@[k]);
                    assert(full[j].1.before.eq_spec(&full[j].1.after));
                }
            }
        }
        pairs
    }

    /// The modified entries: shared keys whose before and after
    /// values compare unequal, with their leaf, in key order.
    pub fn modified(&self) -> (pairs: Vec<(&'daft K, Leaf<&'daft V>)>)
        requires
            vstd::laws_cmp::obeys_cmp::<K>(),
        ensures
            V::obeys_eq_spec() ==> {
                &&& forall|i: int|
                    0 <= i < pairs@.len() ==> self.common@.contains_key(
                        (#[trigger] pairs@[i]).0,
                    ) && self.common@[pairs@[i].0] == pairs@[i].1 && !pairs@[i].1.before.eq_spec(
                        &pairs@[i].1.after,
                    )
                &&& forall|k: &'daft K|
                    #[trigger] self.common@.contains_key(k) && !self.common@[k].before.eq_spec(
                        &self.common@[k].after,
                    ) ==> exists|i: int| 0 <= i < pairs@.len() && (#[trigger] pairs@[i]).0 == k
            },
    {
        let ghost eq_ok = <V as vstd::std_specs::cmp::PartialEqSpec>::obeys_eq_spec();
        let ghost full = vstd::std_specs::btree::spec_btree_map_iter(&self.common).remaining();
        let mut pairs: Vec<(&'daft K, Leaf<&'daft V>)> = Vec::new();
        for pair in it: self.common.iter()
            invariant
                vstd::laws_cmp::obeys_cmp::<K>(),
                eq_ok == <V as vstd::std_specs::cmp::PartialEqSpec>::obeys_eq_spec(),
                it.seq() == full,
                forall|j: int|
                    0 <= j < full.len() ==> self.common@.contains_key(*(#[trigger] full[j]).0)
                        && self.common@[*full[j].0] == *full[j].1,
                eq_ok ==> {
                    &&& forall|i: int|
                        0 <= i < pairs@.len() ==> self.common@.contains_key(
                            (#[trigger] pairs@[i]).0,
                        ) && self.common@[pairs@[i].0] == pairs@[i].1
                            && !pairs@[i].1.before.eq_spec(&pairs@[i].1.after)
                    &&& forall|j: int|
                        0 <= j < it.index() && !(#[trigger] full[j]).1.before.eq_spec(
                            &full[j].1.after,
                        ) ==> exists|i: int|
                            0 <= i < pairs@.len() && (#[trigger] pairs@[i]).0 == *full[j].0
                },
        {
            let ghost pos = it.index();
            let ghost entry_pairs = pairs@;
            proof {
                assert(pair == full[pos]);
            }
            let (k, leaf) = pair;
            if leaf.is_modified() {
                pairs.push((*k, *leaf));
            }
            proof {
                if eq_ok {
                    assert forall|j: int|
                        0 <= j <= pos && !(#[trigger] full[j]).1.before.eq_spec(
                            &full[j].1.after,
                        ) implies exists|i: int|
                        0 <= i < pairs@.len() && (#[trigger] pairs@[i]).0 == *full[j].0 by {
                        if j < pos {
                            let i = choose|i: int|
                                0 <= i < entry_pairs.len() && (#[trigger] entry_pairs[i]).0
                                    == *full[j].0;
                            assert(pairs@[i] == entry_pairs[i]);
                        } else {
                            assert(pairs@[pairs@.len() - 1].0 == *full[j].0);
                        }
                    }
                }
            }
        }
        proof {
            if eq_ok {
                assert forall|k: &'daft K|
                    #[trigger] self.common@.contains_key(k) && !self.common@[k].before.eq_spec(
                        &self.common@[k].after,
                    ) implies exists|i: int|
                    0 <= i < pairs@.len() && (#[trigger] pairs@[i]).0 == k by {
                    assert(full.contains((&k, &self.common@[k])));
                    let j = choose|j: int|
                        0 <= j < full.len() && full[j] == (&k, &self.common@[k]);
                    assert(!full[j].1.before.eq_spec(&full[j].1.after));
                }
            }
        }
        pairs
    }
}

impl<'daft, K: Ord + 'daft, V: 'daft> Diffable<'daft> for BTreeMap<K, V> {
    type Diff = BTreeMapDiff<'daft, K, V>;

    /// The keys' order must behave as modeled.
    open spec fn diff_ready(&'daft self, other: &'daft BTreeMap<K, V>) -> bool {
        vstd::laws_cmp::obeys_cmp::<K>()
    }

    /// Split the entries three ways: the shared keys with both their
    /// values, the keys only in `other` with theirs, and the keys
    /// only in `self` with theirs.
    fn diff(&'daft self, other: &'daft BTreeMap<K, V>) -> (d: BTreeMapDiff<'daft, K, V>)
        ensures
            forall|k: &'daft K| #[trigger]
                d.common@.contains_key(k) <==> (self@.contains_key(*k) && other@.contains_key(
                    *k,
                )),
            forall|k: &'daft K|
                #[trigger] d.common@.contains_key(k) ==> *d.common@[k].before == self@[*k]
                    && *d.common@[k].after == other@[*k],
            forall|k: &'daft K| #[trigger]
                d.added@.contains_key(k) <==> (other@.contains_key(*k) && !self@.contains_key(
                    *k,
                )),
            forall|k: &'daft K|
                #[trigger] d.added@.contains_key(k) ==> *d.added@[k] == other@[*k],
            forall|k: &'daft K| #[trigger]
                d.removed@.contains_key(k) <==> (self@.contains_key(*k) && !other@.contains_key(
                    *k,
                )),
            forall|k: &'daft K|
                #[trigger] d.removed@.contains_key(k) ==> *d.removed@[k] == self@[*k],
    {
        let ghost full = vstd::std_specs::btree::spec_btree_map_iter(self).remaining();
        let mut diff = BTreeMapDiff::new();
        for pair in it: self.iter()
            invariant
                vstd::laws_cmp::obeys_cmp::<K>(),
                it.seq() == full,
                diff.added@ == Map::<&'daft K, &'daft V>::empty(),
                forall|j: int|
                    0 <= j < full.len() ==> self@.contains_key(*(#[trigger] full[j]).0)
                        && self@[*full[j].0] == *full[j].1,
                forall|k: &'daft K|
                    #[trigger] diff.common@.contains_key(k) ==> self@.contains_key(*k)
                        && other@.contains_key(*k) && *diff.common@[k].before == self@[*k]
                        && *diff.common@[k].after == other@[*k],
                forall|k: &'daft K|
                    #[trigger] diff.removed@.contains_key(k) ==> self@.contains_key(*k)
                        && !other@.contains_key(*k) && *diff.removed@[k] == self@[*k],
                forall|j: int|
                    0 <= j < it.index() ==> (if other@.contains_key(*(#[trigger] full[j]).0) {
                        diff.common@.contains_key(full[j].0)
                    } else {
                        diff.removed@.contains_key(full[j].0)
                    }),
        {
            proof {
                assert(pair == full[it.index()]);
            }
            let (k, v) = pair;
            proof {
                assert(self@.contains_key(*k) && self@[*k] == *v);
            }
            match other.get(k) {
                Some(other_v) => {
                    proof {
                        assert(other@.contains_key(*k) && other@[*k] == *other_v);
                    }
                    diff.common.insert(k, Leaf { before: v, after: other_v });
                },
                None => {
                    proof {
                        assert(!other@.contains_key(*k));
                    }
                    diff.removed.insert(k, v);
                },
            }
        }
        proof {
            assert(full.unref().to_set() == self@.kv_pairs());
            assert forall|k: &'daft K|
                self@.contains_key(*k) && other@.contains_key(*k) implies #[trigger] diff
                .common@.contains_key(k) by {
                assert(full.contains((k, &self@[*k])));
                let j = choose|j: int| 0 <= j < full.len() && full[j] == (k, &self@[*k]);
                assert(other@.contains_key(*full[j].0));
                assert(diff.common@.contains_key(full[j].0));
            }
            assert forall|k: &'daft K|
                self@.contains_key(*k) && !other@.contains_key(*k) implies #[trigger] diff
                .removed@.contains_key(k) by {
                assert(full.contains((k, &self@[*k])));
                let j = choose|j: int| 0 <= j < full.len() && full[j] == (k, &self@[*k]);
                assert(!other@.contains_key(*full[j].0));
                assert(diff.removed@.contains_key(full[j].0));
            }
        }
        let ghost common_after = diff.common@;
        let ghost removed_after = diff.removed@;
        let ghost full2 = vstd::std_specs::btree::spec_btree_map_iter(other).remaining();
        for pair in it2: other.iter()
            invariant
                vstd::laws_cmp::obeys_cmp::<K>(),
                it2.seq() == full2,
                diff.common@ == common_after,
                diff.removed@ == removed_after,
                forall|j: int|
                    0 <= j < full2.len() ==> other@.contains_key(*(#[trigger] full2[j]).0)
                        && other@[*full2[j].0] == *full2[j].1,
                forall|k: &'daft K|
                    #[trigger] diff.added@.contains_key(k) ==> other@.contains_key(*k)
                        && !self@.contains_key(*k) && *diff.added@[k] == other@[*k],
                forall|j: int|
                    0 <= j < it2.index() && !self@.contains_key(*(#[trigger] full2[j]).0)
                        ==> diff.added@.contains_key(full2[j].0),
        {
            proof {
                assert(pair == full2[it2.index()]);
            }
            let (k, v) = pair;
            proof {
                assert(other@.contains_key(*k) && other@[*k] == *v);
            }
            if !self.contains_key(k) {
                diff.added.insert(k, v);
            }
        }
        proof {
            assert(full2.unref().to_set() == other@.kv_pairs());
            assert forall|k: &'daft K|
                other@.contains_key(*k) && !self@.contains_key(*k) implies #[trigger] diff
                .added@.contains_key(k) by {
                assert(full2.contains((k, &other@[*k])));
                let j = choose|j: int| 0 <= j < full2.len() && full2[j] == (k, &other@[*k]);
                assert(!self@.contains_key(*full2[j].0));
                assert(diff.added@.contains_key(full2[j].0));
            }
        }
        diff
    }
}

impl<'daft, K: Ord + 'daft> Diffable<'daft> for BTreeSet<K> {
    type Diff = BTreeSetDiff<'daft, K>;

    /// The entries' order must behave as modeled.
    open spec fn diff_ready(&'daft self, other: &'daft BTreeSet<K>) -> bool {
        vstd::laws_cmp::obeys_cmp::<K>()
    }

    /// Split the entries three ways: common, added, removed.
    fn diff(&'daft self, other: &'daft BTreeSet<K>) -> (d: BTreeSetDiff<'daft, K>)
        ensures
            forall|k: &'daft K| #[trigger]
                d.common@.contains(k) <==> (self@.contains(*k) && other@.contains(*k)),
            forall|k: &'daft K| #[trigger]
                d.added@.contains(k) <==> (other@.contains(*k) && !self@.contains(*k)),
            forall|k: &'daft K| #[trigger]
                d.removed@.contains(k) <==> (self@.contains(*k) && !other@.contains(*k)),
    {
        let ghost full = vstd::std_specs::btree::spec_btree_keys_iter(self).remaining();
        proof {
            assert(full.unref().to_set() == self@);
        }
        let mut diff = BTreeSetDiff::new();
        for x in it: self.iter()
            invariant
                vstd::laws_cmp::obeys_cmp::<K>(),
                it.seq() == full,
                diff.added@ == Set::<&'daft K>::empty(),
                forall|k: &'daft K| #[trigger]
                    diff.common@.contains(k) ==> self@.contains(*k) && other@.contains(*k),
                forall|k: &'daft K| #[trigger]
                    diff.removed@.contains(k) ==> self@.contains(*k) && !other@.contains(*k),
                forall|j: int|
                    0 <= j < it.index() ==> (if other@.contains(*(#[trigger] full[j])) {
                        diff.common@.contains(full[j])
                    } else {
                        diff.removed@.contains(full[j])
                    }),
        {
            proof {
                assert(x == full[it.index()]);
                assert(self@.contains(*x)) by {
                    assert(full.unref()[it.index()] == *x);
                    assert(full.unref().to_set().contains(*x));
                }
            }
            if other.contains(x) {
                diff.common.insert(x);
            } else {
                diff.removed.insert(x);
            }
        }
        proof {
            assert forall|k: &'daft K|
                self@.contains(*k) && other@.contains(*k) implies #[trigger] diff.common@.contains(
                k,
            ) by {
                assert(full.unref().to_set().contains(*k));
                let j = choose|j: int| 0 <= j < full.unref().len() && full.unref()[j] == *k;
                assert(other@.contains(*full[j]));
                assert(diff.common@.contains(full[j]));
            }
            assert forall|k: &'daft K|
                self@.contains(*k) && !other@.contains(*k) implies #[trigger] diff
                .removed@.contains(k) by {
                assert(full.unref().to_set().contains(*k));
                let j = choose|j: int| 0 <= j < full.unref().len() && full.unref()[j] == *k;
                assert(!other@.contains(*full[j]));
                assert(diff.removed@.contains(full[j]));
            }
        }
        let ghost common_after = diff.common@;
        let ghost removed_after = diff.removed@;
        let ghost full2 = vstd::std_specs::btree::spec_btree_keys_iter(other).remaining();
        proof {
            assert(full2.unref().to_set() == other@);
        }
        for x in it2: other.iter()
            invariant
                vstd::laws_cmp::obeys_cmp::<K>(),
                it2.seq() == full2,
                diff.common@ == common_after,
                diff.removed@ == removed_after,
                forall|k: &'daft K| #[trigger]
                    diff.added@.contains(k) ==> other@.contains(*k) && !self@.contains(*k),
                forall|j: int|
                    0 <= j < it2.index() && !self@.contains(*(#[trigger] full2[j]))
                        ==> diff.added@.contains(full2[j]),
        {
            proof {
                assert(x == full2[it2.index()]);
                assert(other@.contains(*x)) by {
                    assert(full2.unref()[it2.index()] == *x);
                    assert(full2.unref().to_set().contains(*x));
                }
            }
            if !self.contains(x) {
                diff.added.insert(x);
            }
        }
        proof {
            assert forall|k: &'daft K|
                other@.contains(*k) && !self@.contains(*k) implies #[trigger] diff.added@.contains(
                k,
            ) by {
                assert(full2.unref().to_set().contains(*k));
                let j = choose|j: int| 0 <= j < full2.unref().len() && full2.unref()[j] == *k;
                assert(!self@.contains(*full2[j]));
                assert(diff.added@.contains(full2[j]));
            }
        }
        diff
    }
}

} // verus!
