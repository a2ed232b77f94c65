//! Diffing generic structs: the companion shapes a derive would
//! build, written out by hand against the runtime.

use std::collections::BTreeMap;
use std::fmt;

use daft::diffable::Diffable;
use daft::leaf::Leaf;
use daft::map_diff::BTreeMapDiff;

struct StructWithGenerics<'d, 'e, T, U> {
    b: usize,
    c: &'d T,
    d: &'e U,
}

struct StructWithGenericsDiff<'daft, 'd: 'daft, 'e: 'daft, T: 'd, U: 'e>
where
    &'d T: Diffable<'daft>,
    &'e U: Diffable<'daft>,
{
    b: Leaf<&'daft usize>,
    c: <&'d T as Diffable<'daft>>::Diff,
    d: <&'e U as Diffable<'daft>>::Diff,
}

impl<'daft, 'd: 'daft, 'e: 'daft, T: 'd, U: 'e> Diffable<'daft>
    for StructWithGenerics<'d, 'e, T, U>
where
    &'d T: Diffable<'daft>,
    &'e U: Diffable<'daft>,
{
    type Diff = StructWithGenericsDiff<'daft, 'd, 'e, T, U>;

    fn diff(&'daft self, other: &'daft Self) -> Self::Diff {
        StructWithGenericsDiff {
            b: Diffable::diff(&self.b, &other.b),
            c: Diffable::diff(&self.c, &other.c),
            d: Diffable::diff(&self.d, &other.d),
        }
    }
}

impl<'daft, 'd: 'daft, 'e: 'daft, T: 'd, U: 'e> fmt::Debug
    for StructWithGenericsDiff<'daft, 'd, 'e, T, U>
where
    &'d T: Diffable<'daft>,
    &'e U: Diffable<'daft>,
    <&'d T as Diffable<'daft>>::Diff: fmt::Debug,
    <&'e U as Diffable<'daft>>::Diff: fmt::Debug,
{
    fn fmt(&self, f: &mut fmt::Formatter<'_>) -> fmt::Result {
        f.debug_struct("StructWithGenericsDiff")
            .field("b", &self.b)
            .field("c", &self.c)
            .field("d", &self.d)
            .finish()
    }
}

struct S<'a, T: Eq, U: 'a> {
    a: BTreeMap<usize, T>,
    b: usize,
    c: &'a U,
    d: &'a str,
}

struct SDiff<'daft, 'a: 'daft, T: Eq + 'daft, U: 'a>
where
    &'a U: Diffable<'daft>,
{
    a: BTreeMapDiff<'daft, usize, T>,
    b: Leaf<&'daft usize>,
    c: <&'a U as Diffable<'daft>>::Diff,
    d: Leaf<&'daft str>,
}

impl<'daft, 'a: 'daft, T: Eq + 'daft, U: 'a> Diffable<'daft> for S<'a, T, U>
where
    &'a U: Diffable<'daft>,
{
    type Diff = SDiff<'daft, 'a, T, U>;

    fn diff(&'daft self, other: &'daft Self) -> Self::Diff {
        SDiff {
            a: Diffable::diff(&self.a, &other.a),
            b: Diffable::diff(&self.b, &other.b),
            c: Diffable::diff(&self.c, &other.c),
            d: Diffable::diff(&self.d, &other.d),
        }
    }
}

impl<'daft, 'a: 'daft, T: Eq + fmt::Debug + 'daft, U: 'a> fmt::Debug for SDiff<'daft, 'a, T, U>
where
    &'a U: Diffable<'daft>,
    <&'a U as Diffable<'daft>>::Diff: fmt::Debug,
{
    fn fmt(&self, f: &mut fmt::Formatter<'_>) -> fmt::Result {
        f.debug_struct("SDiff")
            .field("a", &self.a)
            .field("b", &self.b)
            .field("c", &self.c)
            .field("d", &self.d)
            .finish()
    }
}

#[test]
fn test_struct_with_generics() {
    let x = StructWithGenerics { b: 6, c: &5, d: &6 };
    let y = StructWithGenerics { b: 7, c: &5, d: &7 };
    let diff = x.diff(&y);

    assert_eq!(diff.b, Leaf { before: &6, after: &7 });
    assert_eq!(diff.c, Leaf { before: &5, after: &5 });
    assert_eq!(diff.d, Leaf { before: &6, after: &7 });
    println!("{diff:?}");

    let x = S {
        a: [(5, 2usize)].into_iter().collect(),
        b: 5,
        c: &6usize,
        d: "hello",
    };
    let y = S {
        a: [(5, 1usize)].into_iter().collect(),
        b: 5,
        c: &6usize,
        d: "world",
    };
    let diff = x.diff(&y);

    assert_eq!(diff.a.unchanged().len(), 0);
    assert_eq!(diff.a.modified().len(), 1);
    assert_eq!(diff.a.added.len(), 0);
    assert_eq!(diff.a.removed.len(), 0);
    assert_eq!(diff.b.before, diff.b.after);
    assert_eq!(diff.c.before, diff.c.after);
    assert_eq!(diff.d.before, "hello");
    assert_eq!(diff.d.after, "world");

    println!("{diff:#?}");
}
