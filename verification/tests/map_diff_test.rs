//! Tests for the ordered map and set diffs.

use std::collections::{BTreeMap, BTreeSet};
use daft::diffable::Diffable;
use daft::leaf::Leaf;
use daft::map_diff::{BTreeMapDiff, BTreeSetDiff};

#[test]
fn btree_set_diff() {
    let a: BTreeSet<_> = [0, 1, 2, 3, 4, 5].into_iter().collect();
    let b: BTreeSet<_> = [3, 4, 5, 6, 7, 8].into_iter().collect();
    let changes = a.diff(&b);
    let expected = BTreeSetDiff {
        added: [&6, &7, &8].into_iter().collect(),
        removed: [&0, &1, &2].into_iter().collect(),
        common: [&3, &4, &5].into_iter().collect(),
    };
    assert_eq!(expected, changes);
}

#[derive(Debug, PartialEq, Eq, PartialOrd, Ord)]
struct K(i32);

#[derive(Debug)]
#[allow(dead_code)]
struct V(f64);

#[test]
fn btree_map_diff() {
    let a: BTreeMap<_, _> = [(0, 1), (1, 1), (2, 1)].into_iter().collect();
    let b: BTreeMap<_, _> = [(0, 2), (2, 1), (3, 1)].into_iter().collect();

    let changes = a.diff(&b);
    let expected = BTreeMapDiff {
        common: [
            (&0, Leaf { before: &1, after: &2 }),
            (&2, Leaf { before: &1, after: &1 }),
        ]
        .into_iter()
        .collect(),
        added: [(&3, &1)].into_iter().collect(),
        removed: [(&1, &1)].into_iter().collect(),
    };

    assert_eq!(changes, expected);

    // Ensure that keys don't need to be Diffable, and values don't need to
    // be Eq or Diffable.
    let floats_a: BTreeMap<K, V> =
        [(K(0), V(1.0)), (K(1), V(1.0)), (K(2), V(1.0))]
            .into_iter()
            .collect();
    let floats_b: BTreeMap<K, V> =
        [(K(0), V(2.0)), (K(2), V(1.0)), (K(3), V(1.0))]
            .into_iter()
            .collect();

    let diff = floats_a.diff(&floats_b);
    assert_eq!(diff.added.keys().copied().collect::<Vec<_>>(), [&K(3)]);
    assert_eq!(diff.removed.keys().copied().collect::<Vec<_>>(), [&K(1)]);
    assert_eq!(
        diff.common.keys().copied().collect::<Vec<_>>(),
        [&K(0), &K(2)]
    );
}
