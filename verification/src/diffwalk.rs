//! A change-list flavor of the diffing runtime.
//!
//! Here the diff of a container is one flat list of changes, and an
//! enum-shaped value either changed variant (an opaque before/after
//! pair) or changed inside its payload (a recursive diff).
//!
//! Each implementation states in [`Diffable::diff_ready`] what it
//! needs of the standard comparisons involved — that the key order
//! and value equality of the types below behave as their contracts
//! model them — and in exchange promises an exact description of the
//! change list it returns.

use vstd::prelude::*;
use vstd::std_specs::cmp::PartialEqSpec;
use vstd::std_specs::iter::IteratorSpec;
use std::collections::BTreeMap;
use std::collections::BTreeSet;

verus! {

broadcast use vstd::std_specs::btree::group_btree_axioms;

/// A type which can be diffed at a fixed borrow lifetime.
pub trait Diffable<'a>: PartialEq + Eq {
    /// The type of the diff.
    type Diff;

    /// What this type needs of the standard comparisons it diffs
    /// with. For plain values this is simply true; containers need
    /// their key order and value equality to obey the modeled
    /// contracts.
    spec fn diff_ready(&'a self, other: &'a Self) -> bool;

    /// Compute the diff between two values.
    fn diff(&'a self, other: &'a Self) -> Self::Diff
        requires
            self.diff_ready(other),
    ;
}

/// A primitive change.
#[derive(Debug, PartialEq, Eq)]
pub struct Leaf<'a, T: PartialEq + Eq> {
    /// The value on the before side.
    pub before: &'a T,
    /// The value on the after side.
    pub after: &'a T,
}

/// How an enum-shaped value changed.
#[derive(Debug, PartialEq, Eq)]
pub enum EnumChange<'a, T: ?Sized, Diff> {
    /// The variant changed: the variant data is never diffed.
    Variant {
        /// The value on the before side.
        before: &'a T,
        /// The value on the after side.
        after: &'a T,
    },
    /// The variant stayed and its associated data changed: recurse.
    AssociatedData(Diff),
}

/// One change between two maps.
#[derive(Debug, PartialEq, Eq)]
pub enum MapChange<'a, K, V: Diffable<'a>> {
    /// An entry present only in the after map.
    Insert((&'a K, &'a V)),
    /// An entry present only in the before map.
    Remove((&'a K, &'a V)),
    /// An entry present in both maps whose value changed.
    Change((&'a K, V::Diff)),
}

/// One change between two sets.
#[derive(Debug, PartialEq, Eq)]
pub enum SetChange<'a, T: 'a> {
    /// An entry present only in the after set.
    Insert(&'a T),
    /// An entry present only in the before set.
    Remove(&'a T),
}

impl<'a> Diffable<'a> for i32 {
    type Diff = Leaf<'a, i32>;

    /// A plain value needs nothing.
    open spec fn diff_ready(&'a self, other: &'a i32) -> bool {
        true
    }

    /// The diff of two values is the pair of them.
    fn diff(&'a self, other: &'a i32) -> (d: Leaf<'a, i32>)
        ensures
            d.before == self && d.after == other,
    {
        Leaf { before: self, after: other }
    }
}

impl<'a, T: Diffable<'a> + 'a> Diffable<'a> for Option<T> {
    type Diff = Option<EnumChange<'a, Option<T>, T::Diff>>;

    /// The contained values must have modeled equality, and be ready
    /// themselves when both sides are present.
    open spec fn diff_ready(&'a self, other: &'a Option<T>) -> bool {
        &&& T::obeys_eq_spec()
        &&& match (self, other) {
            (Some(x), Some(y)) => x.diff_ready(y),
            _ => true,
        }
    }

    /// No change for equal values; a variant change when exactly one
    /// side is present; a recursive diff when both are present and
    /// differ.
    fn diff(&'a self, other: &'a Option<T>) -> (d: Option<
        EnumChange<'a, Option<T>, T::Diff>,
    >)
        ensures
            match (self, other) {
                (None, None) => d is None,
                (Some(x), Some(y)) => {
                    &&& x.eq_spec(&y) ==> d is None
                    &&& !x.eq_spec(&y) ==> exists|dd: T::Diff|
                        d == Some(EnumChange::<'a, Option<T>, T::Diff>::AssociatedData(dd))
                            && #[trigger] call_ensures(T::diff, (&x, &y), dd)
                },
                _ => d == Some(
                    EnumChange::Variant::<'a, Option<T>, T::Diff> { before: self, after: other },
                ),
            },
    {
        match (self, other) {
            (None, None) => None,
            (Some(a), Some(b)) => {
                if a == b {
                    None
                } else {
                    Some(EnumChange::AssociatedData(a.diff(b)))
                }
            },
            _ => Some(EnumChange::Variant { before: self, after: other }),
        }
    }
}

/// Whether one map change correctly describes a difference between
/// the two maps.
pub open spec fn map_entry_ok<'a, K, V: Diffable<'a>>(
    a: Map<K, V>,
    b: Map<K, V>,
    e: MapChange<'a, K, V>,
) -> bool {
    match e {
        MapChange::Remove(p) => a.contains_key(*p.0) && !b.contains_key(*p.0) && *p.1 == a[*p.0],
        MapChange::Insert(p) => b.contains_key(*p.0) && !a.contains_key(*p.0) && *p.1 == b[*p.0],
        MapChange::Change(p) => a.contains_key(*p.0) && b.contains_key(*p.0) && !a[*p.0].eq_spec(
            &b[*p.0],
        ) && (exists|args: (&'a V, &'a V)|
            *args.0 == a[*p.0] && *args.1 == b[*p.0] && #[trigger] call_ensures(
                V::diff,
                args,
                p.1,
            )),
    }
}

impl<'a, K: Ord + 'a, V: Diffable<'a> + 'a> Diffable<'a> for BTreeMap<K, V> {
    type Diff = Vec<MapChange<'a, K, V>>;

    /// The keys' order and the values' equality must behave as
    /// modeled, and the values of every shared key must be ready
    /// themselves.
    open spec fn diff_ready(&'a self, other: &'a BTreeMap<K, V>) -> bool {
        &&& vstd::laws_cmp::obeys_cmp::<K>()
        &&& V::obeys_eq_spec()
        &&& forall|k: K|
            self@.contains_key(k) && other@.contains_key(k) ==> self@[k].diff_ready(&other@[k])
    }

    /// The change list between two maps: for each key only in `self`
    /// a removal, for each key in both whose values differ a
    /// recursive change, then for each key only in `other` an
    /// insertion; shared keys with equal values appear nowhere.
    fn diff(&'a self, other: &'a BTreeMap<K, V>) -> (d: Vec<MapChange<'a, K, V>>)
        ensures
            forall|i: int| 0 <= i < d@.len() ==> map_entry_ok(self@, other@, #[trigger] d@[i]),
            forall|k: K|
                self@.contains_key(k) && !other@.contains_key(k) ==> exists|i: int|
                    0 <= i < d@.len() && ((#[trigger] d@[i]) matches MapChange::Remove(p) && *p.0
                        == k),
            forall|k: K|
                other@.contains_key(k) && !self@.contains_key(k) ==> exists|i: int|
                    0 <= i < d@.len() && ((#[trigger] d@[i]) matches MapChange::Insert(p) && *p.0
                        == k),
            forall|k: K|
                self@.contains_key(k) && other@.contains_key(k) && !self@[k].eq_spec(&other@[k])
                    ==> exists|i: int|
                    0 <= i < d@.len() && ((#[trigger] d@[i]) matches MapChange::Change(p) && *p.0
                        == k),
            forall|i: int, j: int|
                0 <= i < j < d@.len() && ((#[trigger] d@[i]) matches MapChange::Insert(_)) ==> ((
                #[trigger] d@[j]) matches MapChange::Insert(_)),
    {
        let ghost full = vstd::std_specs::btree::spec_btree_map_iter(self).remaining();
        proof {
            assert(full.unref().to_set() == self@.kv_pairs());
        }
        let mut changes: Vec<MapChange<'a, K, V>> = Vec::new();
        for pair in it: self.iter()
            invariant
                vstd::laws_cmp::obeys_cmp::<K>(),
                V::obeys_eq_spec(),
                forall|k2: K|
                    self@.contains_key(k2) && other@.contains_key(k2) ==> self@[k2].diff_ready(
                        &other@[k2],
                    ),
                it.seq() == full,
                forall|j: int|
                    0 <= j < full.len() ==> self@.contains_key(*(#[trigger] full[j]).0)
                        && self@[*full[j].0] == *full[j].1,
                forall|i: int|
                    0 <= i < changes@.len() ==> map_entry_ok(self@, other@, #[trigger] changes@[i])
                        && !(changes@[i] matches MapChange::Insert(_)),
                forall|j: int|
                    0 <= j < it.index() && !other@.contains_key(*(#[trigger] full[j]).0) ==> exists|
                        i: int,
                    |
                        0 <= i < changes@.len() && ((#[trigger] changes@[i]) matches
                            MapChange::Remove(p) && p.0 == full[j].0),
                forall|j: int|
                    0 <= j < it.index() && other@.contains_key(*(#[trigger] full[j]).0)
                        && !self@[*full[j].0].eq_spec(&other@[*full[j].0]) ==> exists|i: int|
                        0 <= i < changes@.len() && ((#[trigger] changes@[i]) matches
                            MapChange::Change(p) && p.0 == full[j].0),
        {
            let ghost pos = it.index();
            let ghost entry_changes = changes@;
            proof {
                assert(pair == full[pos]);
            }
            let (k, v) = pair;
            proof {
                assert(self@.contains_key(*k) && self@[*k] == *v);
            }
            match other.get(k) {
                Some(other_v) => {
                    if v != other_v {
                        let dd = v.diff(other_v);
                        proof {
                            assert(other@.contains_key(*k) && other@[*k] == *other_v);
                            assert(!self@[*k].eq_spec(&other@[*k]));
                            assert(call_ensures(V::diff, (v, other_v), dd));
                        }
                        changes.push(MapChange::Change((k, dd)));
                        proof {
                            assert((changes@[changes@.len() - 1]) matches MapChange::Change(p)
                                && p.0 == full[pos].0);
                            assert(exists|args: (&'a V, &'a V)|
                                *args.0 == self@[*k] && *args.1 == other@[*k]
                                    && #[trigger] call_ensures(V::diff, args, dd));
                            let ghost e = changes@[changes@.len() - 1];
                            match e {
                                MapChange::Change(p) => {
                                    assert(p.0 == k);
                                    assert(p.1 == dd);
                                    assert(self@.contains_key(*p.0));
                                    assert(other@.contains_key(*p.0));
                                    assert(!self@[*p.0].eq_spec(&other@[*p.0]));
                                    assert(exists|args: (&'a V, &'a V)|
                                        *args.0 == self@[*p.0] && *args.1 == other@[*p.0]
                                            && #[trigger] call_ensures(V::diff, args, p.1));
                                },
                                MapChange::Remove(_) => {
                                    assert(false);
                                },
                                MapChange::Insert(_) => {
                                    assert(false);
                                },
                            }
                            assert(map_entry_ok(self@, other@, changes@[changes@.len() - 1]));
                        }
                    }
                },
                None => {
                    proof {
                        assert(!other@.contains_key(*k));
                    }
                    changes.push(MapChange::Remove((k, v)));
                    proof {
                        assert((changes@[changes@.len() - 1]) matches MapChange::Remove(p) && p.0
                            == full[pos].0);
                        assert(map_entry_ok(self@, other@, changes@[changes@.len() - 1]));
                    }
                },
            }
            proof {
                assert forall|i: int|
                    0 <= i < changes@.len() implies map_entry_ok(
                    self@,
                    other@,
                    #[trigger] changes@[i],
                ) && !(changes@[i] matches MapChange::Insert(_)) by {
                    if i < entry_changes.len() {
                        assert(changes@[i] == entry_changes[i]);
                        assert(map_entry_ok(self@, other@, entry_changes[i]));
                    } else {
                        assert(changes@[i] == changes@[changes@.len() - 1]);
                    }
                }
                assert forall|j: int|
                    0 <= j <= pos && !other@.contains_key(*(#[trigger] full[j]).0) implies exists|
                    i: int,
                |
                    0 <= i < changes@.len() && ((#[trigger] changes@[i]) matches MapChange::Remove(
                        p,
                    ) && p.0 == full[j].0) by {
                    if j < pos {
                        let i = choose|i: int|
                            0 <= i < entry_changes.len() && ((#[trigger] entry_changes[i]) matches
                                MapChange::Remove(p) && p.0 == full[j].0);
                        assert(changes@[i] == entry_changes[i]);
                    }
                }
                assert forall|j: int|
                    0 <= j <= pos && other@.contains_key(*(#[trigger] full[j]).0)
                        && !self@[*full[j].0].eq_spec(&other@[*full[j].0]) implies exists|i: int|
                    0 <= i < changes@.len() && ((#[trigger] changes@[i]) matches MapChange::Change(
                        p,
                    ) && p.0 == full[j].0) by {
                    if j < pos {
                        let i = choose|i: int|
                            0 <= i < entry_changes.len() && ((#[trigger] entry_changes[i]) matches
                                MapChange::Change(p) && p.0 == full[j].0);
                        assert(changes@[i] == entry_changes[i]);
                    }
                }
            }
        }
        let ghost phase1 = changes@.len() as int;
        let ghost prefix = changes@;
        proof {
            assert forall|k: K| self@.contains_key(k) && !other@.contains_key(k) implies exists|
                i: int,
            |
                0 <= i < phase1 && ((#[trigger] prefix[i]) matches MapChange::Remove(p) && *p.0
                    == k) by {
                assert(full.contains((&k, &self@[k])));
                let j = choose|j: int| 0 <= j < full.len() && full[j] == (&k, &self@[k]);
                assert(!other@.contains_key(*full[j].0));
            }
            assert forall|k: K|
                self@.contains_key(k) && other@.contains_key(k) && !self@[k].eq_spec(
                    &other@[k],
                ) implies exists|i: int|
                0 <= i < phase1 && ((#[trigger] prefix[i]) matches MapChange::Change(p) && *p.0
                    == k) by {
                assert(full.contains((&k, &self@[k])));
                let j = choose|j: int| 0 <= j < full.len() && full[j] == (&k, &self@[k]);
                assert(other@.contains_key(*full[j].0));
                assert(!self@[*full[j].0].eq_spec(&other@[*full[j].0]));
            }
        }
        let ghost full2 = vstd::std_specs::btree::spec_btree_map_iter(other).remaining();
        for pair in it2: other.iter()
            invariant
                vstd::laws_cmp::obeys_cmp::<K>(),
                it2.seq() == full2,
                changes@.len() >= phase1 >= 0,
                changes@.take(phase1) == prefix,
                forall|j: int|
                    0 <= j < full2.len() ==> other@.contains_key(*(#[trigger] full2[j]).0)
                        && other@[*full2[j].0] == *full2[j].1,
                forall|i: int|
                    0 <= i < phase1 ==> !((#[trigger] changes@[i]) matches MapChange::Insert(_)),
                forall|i: int|
                    phase1 <= i < changes@.len() ==> ((#[trigger] changes@[i]) matches
                        MapChange::Insert(_)),
                forall|i: int|
                    0 <= i < changes@.len() ==> map_entry_ok(self@, other@, #[trigger] changes@[i]),
                forall|j: int|
                    0 <= j < it2.index() && !self@.contains_key(*(#[trigger] full2[j]).0) ==> exists|
                        i: int,
                    |
                        phase1 <= i < changes@.len() && ((#[trigger] changes@[i]) matches
                            MapChange::Insert(p) && p.0 == full2[j].0),
        {
            let ghost pos = it2.index();
            let ghost entry_changes = changes@;
            proof {
                assert(pair == full2[pos]);
            }
            let (k, v) = pair;
            if !self.contains_key(k) {
                changes.push(MapChange::Insert((k, v)));
                proof {
                    assert(changes@.take(phase1) =~= entry_changes.take(phase1));
                    assert((changes@[changes@.len() - 1]) matches MapChange::Insert(p) && p.0
                        == full2[pos].0);
                    assert(map_entry_ok(self@, other@, changes@[changes@.len() - 1]));
                }
            }
            proof {
                assert forall|i: int|
                    0 <= i < changes@.len() implies map_entry_ok(
                    self@,
                    other@,
                    #[trigger] changes@[i],
                ) by {
                    if i < entry_changes.len() {
                        assert(changes@[i] == entry_changes[i]);
                        assert(map_entry_ok(self@, other@, entry_changes[i]));
                    } else {
                        assert(changes@[i] == changes@[changes@.len() - 1]);
                    }
                }
                assert forall|j: int|
                    0 <= j <= pos && !self@.contains_key(*(#[trigger] full2[j]).0) implies exists|
                    i: int,
                |
                    phase1 <= i < changes@.len() && ((#[trigger] changes@[i]) matches
                        MapChange::Insert(p) && p.0 == full2[j].0) by {
                    if j < pos {
                        let i = choose|i: int|
                            phase1 <= i < entry_changes.len() && ((#[trigger] entry_changes[i])
                                matches MapChange::Insert(p) && p.0 == full2[j].0);
                        assert(changes@[i] == entry_changes[i]);
                    }
                }
            }
        }
        proof {
            assert forall|k: K| other@.contains_key(k) && !self@.contains_key(k) implies exists|
                i: int,
            |
                0 <= i < changes@.len() && ((#[trigger] changes@[i]) matches MapChange::Insert(p)
                    && *p.0 == k) by {
                assert(full2.contains((&k, &other@[k])));
                let j = choose|j: int| 0 <= j < full2.len() && full2[j] == (&k, &other@[k]);
                assert(!self@.contains_key(*full2[j].0));
            }
            assert forall|k: K| self@.contains_key(k) && !other@.contains_key(k) implies exists|
                i: int,
            |
                0 <= i < changes@.len() && ((#[trigger] changes@[i]) matches MapChange::Remove(p)
                    && *p.0 == k) by {
                let i = choose|i: int|
                    0 <= i < phase1 && ((#[trigger] prefix[i]) matches MapChange::Remove(p) && *p.0
                        == k);
                assert(changes@.take(phase1)[i] == changes@[i]);
            }
            assert forall|k: K|
                self@.contains_key(k) && other@.contains_key(k) && !self@[k].eq_spec(
                    &other@[k],
                ) implies exists|i: int|
                0 <= i < changes@.len() && ((#[trigger] changes@[i]) matches MapChange::Change(p)
                    && *p.0 == k) by {
                let i = choose|i: int|
                    0 <= i < phase1 && ((#[trigger] prefix[i]) matches MapChange::Change(p) && *p.0
                        == k);
                assert(changes@.take(phase1)[i] == changes@[i]);
            }
        }
        changes
    }
}

impl<'a, T: Ord + 'a> Diffable<'a> for BTreeSet<T> {
    type Diff = Vec<SetChange<'a, T>>;

    /// The entries' order must behave as modeled.
    open spec fn diff_ready(&'a self, other: &'a BTreeSet<T>) -> bool {
        vstd::laws_cmp::obeys_cmp::<T>()
    }

    /// The change list between two sets: one removal for each entry
    /// only in `self`, then one insertion for each entry only in
    /// `other`; entries in both appear in neither list.
    fn diff(&'a self, other: &'a BTreeSet<T>) -> (d: Vec<SetChange<'a, T>>)
        ensures
            forall|i: int|
                0 <= i < d@.len() ==> match #[trigger] d@[i] {
                    SetChange::Remove(x) => self@.contains(*x) && !other@.contains(*x),
                    SetChange::Insert(x) => other@.contains(*x) && !self@.contains(*x),
                },
            forall|x: T|
                self@.contains(x) && !other@.contains(x) ==> exists|i: int|
                    0 <= i < d@.len() && ((#[trigger] d@[i]) matches SetChange::Remove(r) && *r
                        == x),
            forall|x: T|
                other@.contains(x) && !self@.contains(x) ==> exists|i: int|
                    0 <= i < d@.len() && ((#[trigger] d@[i]) matches SetChange::Insert(r) && *r
                        == x),
            forall|i: int, j: int|
                0 <= i < j < d@.len() && ((#[trigger] d@[i]) matches SetChange::Insert(_)) ==> ((
                #[trigger] d@[j]) matches SetChange::Insert(_)),
    {
        let ghost full = vstd::std_specs::btree::spec_btree_keys_iter(self).remaining();
        proof {
            assert(full.unref().to_set() == self@);
        }
        let mut changes: Vec<SetChange<'a, T>> = Vec::new();
        for x in it: self.iter()
            invariant
                vstd::laws_cmp::obeys_cmp::<T>(),
                it.seq() == full,
                forall|i: int|
                    0 <= i < changes@.len() ==> ((#[trigger] changes@[i]) matches
                        SetChange::Remove(r) && self@.contains(*r) && !other@.contains(*r)),
                forall|j: int|
                    0 <= j < it.index() && !other@.contains(*full[j]) ==> exists|i: int|
                        0 <= i < changes@.len() && ((#[trigger] changes@[i]) matches
                            SetChange::Remove(r) && r == full[j]),
        {
            let ghost entry_changes = changes@;
            let ghost k = it.index();
            proof {
                assert(x == full[k]);
                assert(self@.contains(*x)) by {
                    assert(full.unref()[k] == *x);
                    assert(full.unref().to_set().contains(*x));
                }
            }
            if !other.contains(x) {
                changes.push(SetChange::Remove(x));
                proof {
                    assert((changes@[changes@.len() - 1]) matches SetChange::Remove(r) && r == x);
                }
            }
            proof {
                assert forall|j: int| 0 <= j <= k && !other@.contains(*full[j]) implies exists|
                    i: int,
                |
                    0 <= i < changes@.len() && ((#[trigger] changes@[i]) matches SetChange::Remove(
                        r,
                    ) && r == full[j]) by {
                    if j < k {
                        let i = choose|i: int|
                            0 <= i < entry_changes.len() && ((#[trigger] entry_changes[i]) matches
                                SetChange::Remove(r) && r == full[j]);
                        assert(changes@[i] == entry_changes[i]);
                    } else {
                        assert((changes@[changes@.len() - 1]) matches SetChange::Remove(r) && r
                            == full[j]);
                    }
                }
            }
        }
        let ghost removals = changes@.len() as int;
        let ghost prefix = changes@;
        proof {
            assert forall|x: T| self@.contains(x) && !other@.contains(x) implies exists|i: int|
                0 <= i < removals && ((#[trigger] prefix[i]) matches SetChange::Remove(r) && *r
                    == x) by {
                assert(full.unref().to_set().contains(x));
                let j = choose|j: int| 0 <= j < full.unref().len() && full.unref()[j] == x;
                assert(*full[j] == x);
                assert(!other@.contains(*full[j]));
            }
        }
        let ghost full2 = vstd::std_specs::btree::spec_btree_keys_iter(other).remaining();
        proof {
            assert(full2.unref().to_set() == other@);
        }
        for x in it2: other.iter()
            invariant
                vstd::laws_cmp::obeys_cmp::<T>(),
                it2.seq() == full2,
                changes@.len() >= removals >= 0,
                changes@.take(removals) == prefix,
                forall|i: int|
                    0 <= i < removals ==> ((#[trigger] changes@[i]) matches SetChange::Remove(r)
                        && self@.contains(*r) && !other@.contains(*r)),
                forall|i: int|
                    removals <= i < changes@.len() ==> ((#[trigger] changes@[i]) matches
                        SetChange::Insert(r) && other@.contains(*r) && !self@.contains(*r)),
                forall|j: int|
                    0 <= j < it2.index() && !self@.contains(*full2[j]) ==> exists|i: int|
                        removals <= i < changes@.len() && ((#[trigger] changes@[i]) matches
                            SetChange::Insert(r) && r == full2[j]),
        {
            let ghost entry_changes = changes@;
            let ghost k = it2.index();
            proof {
                assert(x == full2[k]);
                assert(other@.contains(*x)) by {
                    assert(full2.unref()[k] == *x);
                    assert(full2.unref().to_set().contains(*x));
                }
            }
            if !self.contains(x) {
                changes.push(SetChange::Insert(x));
                proof {
                    assert(changes@.take(removals) =~= entry_changes.take(removals));
                    assert((changes@[changes@.len() - 1]) matches SetChange::Insert(r) && r == x);
                }
            }
            proof {
                assert forall|j: int| 0 <= j <= k && !self@.contains(*full2[j]) implies exists|
                    i: int,
                |
                    removals <= i < changes@.len() && ((#[trigger] changes@[i]) matches
                        SetChange::Insert(r) && r == full2[j]) by {
                    if j < k {
                        let i = choose|i: int|
                            removals <= i < entry_changes.len() && ((#[trigger] entry_changes[i])
                                matches SetChange::Insert(r) && r == full2[j]);
                        assert(changes@[i] == entry_changes[i]);
                    } else {
                        assert((changes@[changes@.len() - 1]) matches SetChange::Insert(r) && r
                            == full2[j]);
                    }
                }
            }
        }
        proof {
            assert forall|x: T| other@.contains(x) && !self@.contains(x) implies exists|i: int|
                0 <= i < changes@.len() && ((#[trigger] changes@[i]) matches SetChange::Insert(r)
                    && *r == x) by {
                assert(full2.unref().to_set().contains(x));
                let j = choose|j: int| 0 <= j < full2.unref().len() && full2.unref()[j] == x;
                assert(*full2[j] == x);
                assert(!self@.contains(*full2[j]));
            }
            assert forall|x: T| self@.contains(x) && !other@.contains(x) implies exists|i: int|
                0 <= i < changes@.len() && ((#[trigger] changes@[i]) matches SetChange::Remove(r)
                    && *r == x) by {
                let i = choose|i: int|
                    0 <= i < removals && ((#[trigger] prefix[i]) matches SetChange::Remove(r)
                        && *r == x);
                assert(changes@.take(removals)[i] == changes@[i]);
            }
        }
        changes
    }
}

} // verus!
