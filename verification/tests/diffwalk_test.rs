//! Tests for the change-list revision of the diffing runtime.

use std::collections::{BTreeMap, BTreeSet};
use daft::diffwalk::{Diffable, EnumChange, Leaf, MapChange, SetChange};

#[test]
fn test_set() {
    let a: BTreeSet<_> = [0, 1, 2, 3, 4, 5].into_iter().collect();
    let b: BTreeSet<_> = [3, 4, 5, 6, 7, 8].into_iter().collect();
    let changes = a.diff(&b);
    let expected = vec![
        SetChange::Remove(&0),
        SetChange::Remove(&1),
        SetChange::Remove(&2),
        SetChange::Insert(&6),
        SetChange::Insert(&7),
        SetChange::Insert(&8),
    ];
    assert_eq!(expected, changes);
}

#[test]
fn test_map() {
    let a: BTreeMap<_, _> = [(0, 1), (1, 1), (2, 1)].into_iter().collect();
    let b: BTreeMap<_, _> = [(0, 2), (2, 1), (3, 1)].into_iter().collect();

    let changes = a.diff(&b);
    let expected = vec![
        MapChange::Change((
            &0,
            Leaf {
                before: &1,
                after: &2,
            },
        )),
        MapChange::Remove((&1, &1)),
        MapChange::Insert((&3, &1)),
    ];

    assert_eq!(changes, expected);
}

#[test]
fn test_option() {
    let a = Some(4);
    let b = None;
    let diff = a.diff(&b);
    let expected = Some(EnumChange::Variant {
        before: &Some(4),
        after: &None,
    });
    assert_eq!(diff, expected);

    let a = Some(4);
    let b = Some(5);
    let diff = a.diff(&b);
    let expected = Some(EnumChange::AssociatedData(Leaf {
        before: &4,
        after: &5,
    }));
    assert_eq!(diff, expected);

    let a: Option<i32> = None;
    let b = None;
    let diff = a.diff(&b);
    assert!(diff.is_none());

    let a = Some(4);
    let b = Some(4);
    let diff = a.diff(&b);
    assert!(diff.is_none());
}

#[test]
fn leaf_diff_keeps_values() {
    let a: i32 = 3;
    let b: i32 = 9;
    let diff = a.diff(&b);
    assert_eq!(diff, Leaf { before: &3, after: &9 });
}
