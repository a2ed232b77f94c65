//! Tests for the diffing runtime: the leaf pair and the trait
//! implementations for primitive and structural types.

use daft::diffable::Diffable;
use daft::leaf::Leaf;

#[derive(Debug, Eq, PartialEq)]
enum EnumWithGenerics<'a, T, U> {
    A(T),
    B(&'a U),
}

impl<'daft, 'a: 'daft, T: 'daft, U: 'daft> Diffable<'daft> for EnumWithGenerics<'a, T, U> {
    type Diff = Leaf<&'daft Self>;

    fn diff(&'daft self, other: &'daft Self) -> Self::Diff {
        Leaf { before: self, after: other }
    }
}

#[derive(Debug, Eq, PartialEq)]
struct Inner {
    a: u32,
    b: &'static str,
}

#[derive(Debug, Eq, PartialEq)]
struct InnerDiff<'daft> {
    a: Leaf<&'daft u32>,
    b: Leaf<&'daft str>,
}

impl<'daft> Diffable<'daft> for Inner {
    type Diff = InnerDiff<'daft>;

    fn diff(&'daft self, other: &'daft Self) -> Self::Diff {
        InnerDiff {
            a: Diffable::diff(&self.a, &other.a),
            b: Diffable::diff(&self.b, &other.b),
        }
    }
}

#[derive(Debug, Eq, PartialEq)]
struct Outer {
    inner: Inner,
}

#[derive(Debug, Eq, PartialEq)]
struct OuterDiff<'daft> {
    inner: Leaf<&'daft Inner>,
}

impl<'daft> Diffable<'daft> for Outer {
    type Diff = OuterDiff<'daft>;

    fn diff(&'daft self, other: &'daft Self) -> Self::Diff {
        OuterDiff {
            inner: Leaf { before: &self.inner, after: &other.inner },
        }
    }
}

#[test]
fn test_enum_with_generics() {
    let x = 5usize;
    let y = 5u8;
    let a = EnumWithGenerics::A(x);
    let b = EnumWithGenerics::B(&y);
    let diff = a.diff(&b);
    assert_eq!(Leaf { before: &a, after: &b }, diff);
}

#[test]
fn diff_pair_lifetimes() {
    let owned: Leaf<String> = {
        let before = Outer { inner: Inner { a: 5, b: "hello" } };
        let after = Outer { inner: Inner { a: 6, b: "world" } };

        let diff = before.diff(&after);
        let inner_diff = {
            let inner: Leaf<&Inner> = diff.inner;
            // Ensure that inner.diff_pair outlives inner.
            inner.diff_pair()
        };

        assert_eq!(*inner_diff.a.before, 5);
        assert_eq!(*inner_diff.a.after, 6);
        assert_eq!(inner_diff.b.before, "hello");
        assert_eq!(inner_diff.b.after, "world");

        inner_diff.b.map(str::to_owned)
    };

    assert_eq!(owned.before, "hello");
    assert_eq!(owned.after, "world");
}

#[test]
fn reference_diffable() {
    // Test that a reference to a diffable type can be diffed.
    let before = &&&&&&"hello";
    let after = &&&&&&"world";

    // This should automatically dereference the references.
    let diff: Leaf<&str> = before.diff(after);
    assert_eq!(diff.before, ******before);
    assert_eq!(diff.after, ******after);
}

#[test]
fn tuple_diffable() {
    let before = (1usize, 2usize, 3usize);
    let after = (4, 5, 6);

    let diff = before.diff(&after);
    assert_eq!(
        diff,
        (
            Leaf { before: &1, after: &4 },
            Leaf { before: &2, after: &5 },
            Leaf { before: &3, after: &6 },
        )
    );
}

#[test]
fn leaf_as_ref_views_both_sides() {
    let leaf: Leaf<u32> = Leaf { before: 1, after: 2 };
    let viewed = leaf.as_ref();
    assert_eq!(*viewed.before, 1);
    assert_eq!(*viewed.after, 2);
}

#[test]
fn leaf_as_mut_writes_through() {
    let mut leaf: Leaf<u32> = Leaf { before: 1, after: 2 };
    let viewed = leaf.as_mut();
    *viewed.before = 10;
    *viewed.after = 20;
    assert_eq!(leaf.before, 10);
    assert_eq!(leaf.after, 20);
}

#[test]
fn leaf_as_deref_views_the_targets() {
    let leaf: Leaf<String> =
        Leaf { before: "hello".to_owned(), after: "world".to_owned() };
    assert_eq!(leaf.as_deref(), Leaf { before: "hello", after: "world" });
}

#[test]
fn leaf_map_applies_to_both_sides() {
    let leaf: Leaf<&str> = Leaf { before: "hello", after: "world" };
    let owned: Leaf<String> = leaf.map(String::from);
    assert_eq!(owned.before, "hello");
    assert_eq!(owned.after, "world");
}

#[test]
fn leaf_change_queries() {
    let same: Leaf<&str> = Leaf { before: "hello", after: "hello" };
    assert!(same.is_unchanged());
    assert!(!same.is_modified());

    let changed: Leaf<&str> = Leaf { before: "hello", after: "world" };
    assert!(!changed.is_unchanged());
    assert!(changed.is_modified());
}

#[test]
fn leaf_cloned_and_copied() {
    let before = String::from("hello");
    let after = String::from("world");
    let leaf: Leaf<&String> = Leaf { before: &before, after: &after };
    let owned: Leaf<String> = leaf.cloned();
    assert_eq!(owned.before, "hello");
    assert_eq!(owned.after, "world");

    let x = "hello";
    let y = "world";
    let leaf: Leaf<&&str> = Leaf { before: &x, after: &y };
    let copied: Leaf<&str> = leaf.copied();
    assert_eq!(copied.before, "hello");
    assert_eq!(copied.after, "world");
}

#[test]
fn option_and_result_diff_contents() {
    let a: Option<i32> = Some(3);
    let b: Option<i32> = None;
    let diff = a.diff(&b);
    assert_eq!(diff.before, Some(&3));
    assert_eq!(diff.after, None);

    let ok: Result<i32, u8> = Ok(3);
    let err: Result<i32, u8> = Err(7);
    let diff = ok.diff(&err);
    assert_eq!(diff.before, Ok(&3));
    assert_eq!(diff.after, Err(&7));
}

#[derive(Debug, Eq, PartialEq)]
struct Point {
    x: i32,
    y: i32,
}

#[derive(Debug, Eq, PartialEq)]
struct PointDiff<'daft> {
    x: Leaf<&'daft i32>,
    y: Leaf<&'daft i32>,
}

impl<'daft> Diffable<'daft> for Point {
    type Diff = PointDiff<'daft>;

    fn diff(&'daft self, other: &'daft Self) -> Self::Diff {
        PointDiff {
            x: Diffable::diff(&self.x, &other.x),
            y: Diffable::diff(&self.y, &other.y),
        }
    }
}

#[test]
fn point_diff_recursively() {
    // The recursive companion of a plain two-field struct: each field
    // diffs to the leaf holding its before and after values.
    let before = Point { x: 1, y: 2 };
    let after = Point { x: 1, y: 5 };
    let diff = before.diff(&after);
    assert_eq!(*diff.x.before, 1);
    assert_eq!(*diff.x.after, 1);
    assert_eq!(*diff.y.before, 2);
    assert_eq!(*diff.y.after, 5);
}

#[derive(Debug, Eq, PartialEq)]
enum E {
    A,
    B(u32),
}

impl<'daft> Diffable<'daft> for E {
    type Diff = Leaf<&'daft E>;

    fn diff(&'daft self, other: &'daft Self) -> Self::Diff {
        Leaf { before: self, after: other }
    }
}

#[test]
fn enum_diff_is_an_opaque_pair() {
    // Diffing across variants never inspects the payload: the whole
    // values come back as an opaque pair.
    let a = E::A;
    let b = E::B(4);
    let diff = a.diff(&b);
    assert_eq!(diff.before, &E::A);
    assert_eq!(diff.after, &E::B(4));
}

#[test]
fn smart_pointers_diff_their_contents() {
    let a = Box::new(1i32);
    let b = Box::new(2i32);
    let diff = a.diff(&b);
    assert_eq!(diff, Leaf { before: &1, after: &2 });

    let a = std::rc::Rc::new(3i32);
    let b = std::rc::Rc::new(4i32);
    let diff = a.diff(&b);
    assert_eq!(diff, Leaf { before: &3, after: &4 });

    let a = std::sync::Arc::new(5i32);
    let b = std::sync::Arc::new(6i32);
    let diff = a.diff(&b);
    assert_eq!(diff, Leaf { before: &5, after: &6 });
}

#[test]
fn sequences_diff_as_leaves() {
    let a = vec![1i32, 2, 3];
    let b = vec![1i32, 2, 4];
    let diff = a.diff(&b);
    assert_eq!(diff.before, &[1, 2, 3]);
    assert_eq!(diff.after, &[1, 2, 4]);

    let s = String::from("hello");
    let t = String::from("world");
    let diff = s.diff(&t);
    assert_eq!(diff, Leaf { before: "hello", after: "world" });
}

#[test]
fn primitive_leaves_keep_values() {
    let a: u8 = 1;
    let b: u8 = 2;
    let diff = a.diff(&b);
    assert_eq!(*diff.before, 1);
    assert_eq!(*diff.after, 2);

    let s = String::from("ab");
    let t = String::from("cd");
    let diff = s.as_str().diff(t.as_str());
    assert_eq!(diff.before, "ab");
    assert_eq!(diff.after, "cd");
}
