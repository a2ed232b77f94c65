//! The diffing capability and its implementations for primitive types.
//!
//! A diffable type can compare two of its values borrowed for one
//! lifetime and describe what changed as a value of its associated
//! diff type at that lifetime. The trait itself fixes only the shape;
//! every implementation declares exactly what its diff holds, so a
//! caller that knows the concrete type knows the diff, and a generic
//! caller can pass `call_ensures(T::diff, ...)` along.
//!
//! Primitive types are leaves: their diff is the pair of the two
//! borrowed values, untransformed. References delegate to what they
//! point at; options, results and tuples diff structurally one level
//! deep.

use vstd::prelude::*;
use crate::leaf::Leaf;

verus! {

/// A type which can be diffed, once the borrow lifetime of the two
/// compared values is fixed.
pub trait Diffable<'daft> {
    /// The type of the diff at that lifetime.
    type Diff;

    /// What this type needs of the standard comparisons it diffs
    /// with. For plain values nothing, which is the default;
    /// containers need their key order to obey the modeled contracts,
    /// and compound types pass the needs of their parts along.
    open spec fn diff_ready(&'daft self, other: &'daft Self) -> bool {
        true
    }

    /// Compute the diff between two values.
    fn diff(&'daft self, other: &'daft Self) -> Self::Diff
        requires
            self.diff_ready(other),
    ;
}

impl<'daft> Diffable<'daft> for i64 {
    type Diff = Leaf<&'daft i64>;

    /// The diff of two values is the pair of them.
    fn diff(&'daft self, other: &'daft i64) -> (d: Leaf<&'daft i64>)
        ensures
            d.before == self && d.after == other,
    {
        Leaf { before: self, after: other }
    }
}

impl<'daft> Diffable<'daft> for i32 {
    type Diff = Leaf<&'daft i32>;

    /// The diff of two values is the pair of them.
    fn diff(&'daft self, other: &'daft i32) -> (d: Leaf<&'daft i32>)
        ensures
            d.before == self && d.after == other,
    {
        Leaf { before: self, after: other }
    }
}

impl<'daft> Diffable<'daft> for i16 {
    type Diff = Leaf<&'daft i16>;

    /// The diff of two values is the pair of them.
    fn diff(&'daft self, other: &'daft i16) -> (d: Leaf<&'daft i16>)
        ensures
            d.before == self && d.after == other,
    {
        Leaf { before: self, after: other }
    }
}

impl<'daft> Diffable<'daft> for i8 {
    type Diff = Leaf<&'daft i8>;

    /// The diff of two values is the pair of them.
    fn diff(&'daft self, other: &'daft i8) -> (d: Leaf<&'daft i8>)
        ensures
            d.before == self && d.after == other,
    {
        Leaf { before: self, after: other }
    }
}

impl<'daft> Diffable<'daft> for u64 {
    type Diff = Leaf<&'daft u64>;

    /// The diff of two values is the pair of them.
    fn diff(&'daft self, other: &'daft u64) -> (d: Leaf<&'daft u64>)
        ensures
            d.before == self && d.after == other,
    {
        Leaf { before: self, after: other }
    }
}

impl<'daft> Diffable<'daft> for u32 {
    type Diff = Leaf<&'daft u32>;

    /// The diff of two values is the pair of them.
    fn diff(&'daft self, other: &'daft u32) -> (d: Leaf<&'daft u32>)
        ensures
            d.before == self && d.after == other,
    {
        Leaf { before: self, after: other }
    }
}

impl<'daft> Diffable<'daft> for u16 {
    type Diff = Leaf<&'daft u16>;

    /// The diff of two values is the pair of them.
    fn diff(&'daft self, other: &'daft u16) -> (d: Leaf<&'daft u16>)
        ensures
            d.before == self && d.after == other,
    {
        Leaf { before: self, after: other }
    }
}

impl<'daft> Diffable<'daft> for u8 {
    type Diff = Leaf<&'daft u8>;

    /// The diff of two values is the pair of them.
    fn diff(&'daft self, other: &'daft u8) -> (d: Leaf<&'daft u8>)
        ensures
            d.before == self && d.after == other,
    {
        Leaf { before: self, after: other }
    }
}

impl<'daft> Diffable<'daft> for char {
    type Diff = Leaf<&'daft char>;

    /// The diff of two values is the pair of them.
    fn diff(&'daft self, other: &'daft char) -> (d: Leaf<&'daft char>)
        ensures
            d.before == self && d.after == other,
    {
        Leaf { before: self, after: other }
    }
}

impl<'daft> Diffable<'daft> for bool {
    type Diff = Leaf<&'daft bool>;

    /// The diff of two values is the pair of them.
    fn diff(&'daft self, other: &'daft bool) -> (d: Leaf<&'daft bool>)
        ensures
            d.before == self && d.after == other,
    {
        Leaf { before: self, after: other }
    }
}

impl<'daft> Diffable<'daft> for isize {
    type Diff = Leaf<&'daft isize>;

    /// The diff of two values is the pair of them.
    fn diff(&'daft self, other: &'daft isize) -> (d: Leaf<&'daft isize>)
        ensures
            d.before == self && d.after == other,
    {
        Leaf { before: self, after: other }
    }
}

impl<'daft> Diffable<'daft> for usize {
    type Diff = Leaf<&'daft usize>;

    /// The diff of two values is the pair of them.
    fn diff(&'daft self, other: &'daft usize) -> (d: Leaf<&'daft usize>)
        ensures
            d.before == self && d.after == other,
    {
        Leaf { before: self, after: other }
    }
}

impl<'daft> Diffable<'daft> for () {
    type Diff = Leaf<&'daft ()>;

    /// The diff of two values is the pair of them.
    fn diff(&'daft self, other: &'daft ()) -> (d: Leaf<&'daft ()>)
        ensures
            d.before == self && d.after == other,
    {
        Leaf { before: self, after: other }
    }
}

impl<'daft> Diffable<'daft> for str {
    type Diff = Leaf<&'daft str>;

    /// The diff of two string slices is the pair of them.
    fn diff(&'daft self, other: &'daft str) -> (d: Leaf<&'daft str>)
        ensures
            d.before == self && d.after == other,
    {
        Leaf { before: self, after: other }
    }
}

impl<'daft, 'a: 'daft, T: Diffable<'daft> + ?Sized> Diffable<'daft> for &'a T {
    type Diff = <T as Diffable<'daft>>::Diff;

    /// A reference is ready when what it points at is.
    open spec fn diff_ready(&'daft self, other: &'daft &'a T) -> bool {
        (*self).diff_ready(*other)
    }

    /// Diffing references diffs what they point at.
    fn diff(&'daft self, other: &'daft &'a T) -> (d: <T as Diffable<'daft>>::Diff)
        ensures
            call_ensures(T::diff, (*self, *other), d),
    {
        (**self).diff(*other)
    }
}

impl<'daft, T: Diffable<'daft> + 'daft> Diffable<'daft> for Box<T> {
    type Diff = <T as Diffable<'daft>>::Diff;

    /// A box is ready when its contents are.
    open spec fn diff_ready(&'daft self, other: &'daft Box<T>) -> bool {
        (**self).diff_ready(&**other)
    }

    /// Diffing boxes diffs their contents.
    fn diff(&'daft self, other: &'daft Box<T>) -> (d: <T as Diffable<'daft>>::Diff)
        ensures
            call_ensures(T::diff, (&**self, &**other), d),
    {
        (**self).diff(&**other)
    }
}

impl<'daft, T: ?Sized + 'daft> Diffable<'daft> for core::marker::PhantomData<T> {
    type Diff = Leaf<&'daft core::marker::PhantomData<T>>;

    /// A marker diffs to the pair of its two (empty) values.
    fn diff(&'daft self, other: &'daft core::marker::PhantomData<T>) -> (d: Leaf<
        &'daft core::marker::PhantomData<T>,
    >)
        ensures
            d.before == self && d.after == other,
    {
        Leaf { before: self, after: other }
    }
}

impl<'daft> Diffable<'daft> for String {
    type Diff = Leaf<&'daft str>;

    /// Strings are leaves: the diff is the pair of the two string
    /// slices, untransformed.
    fn diff(&'daft self, other: &'daft String) -> (d: Leaf<&'daft str>)
        ensures
            d.before@ == self@ && d.after@ == other@,
    {
        Leaf { before: self.as_str(), after: other.as_str() }
    }
}

impl<'daft, T: 'daft> Diffable<'daft> for [T] {
    type Diff = Leaf<&'daft [T]>;

    /// Slices are leaves: the diff is the pair of them.
    fn diff(&'daft self, other: &'daft [T]) -> (d: Leaf<&'daft [T]>)
        ensures
            d.before == self && d.after == other,
    {
        Leaf { before: self, after: other }
    }
}

impl<'daft, T: 'daft> Diffable<'daft> for Vec<T> {
    type Diff = Leaf<&'daft [T]>;

    /// Vectors are leaves: the diff is the pair of the two element
    /// slices, untransformed.
    fn diff(&'daft self, other: &'daft Vec<T>) -> (d: Leaf<&'daft [T]>)
        ensures
            d.before@ == self@ && d.after@ == other@,
    {
        Leaf { before: self.as_slice(), after: other.as_slice() }
    }
}

impl<'daft, T: Diffable<'daft> + 'daft> Diffable<'daft> for std::rc::Rc<T> {
    type Diff = <T as Diffable<'daft>>::Diff;

    /// A shared pointer is ready when its contents are.
    open spec fn diff_ready(&'daft self, other: &'daft std::rc::Rc<T>) -> bool {
        (**self).diff_ready(&**other)
    }

    /// Diffing shared pointers diffs their contents.
    fn diff(&'daft self, other: &'daft std::rc::Rc<T>) -> (d: <T as Diffable<'daft>>::Diff)
        ensures
            call_ensures(T::diff, (&**self, &**other), d),
    {
        (**self).diff(&**other)
    }
}

impl<'daft, T: Diffable<'daft> + 'daft> Diffable<'daft> for std::sync::Arc<T> {
    type Diff = <T as Diffable<'daft>>::Diff;

    /// A shared pointer is ready when its contents are.
    open spec fn diff_ready(&'daft self, other: &'daft std::sync::Arc<T>) -> bool {
        (**self).diff_ready(&**other)
    }

    /// Diffing shared pointers diffs their contents.
    fn diff(&'daft self, other: &'daft std::sync::Arc<T>) -> (d: <T as Diffable<'daft>>::Diff)
        ensures
            call_ensures(T::diff, (&**self, &**other), d),
    {
        (**self).diff(&**other)
    }
}

/// The option's contents, by reference.
pub open spec fn spec_opt_ref<'a, T>(opt: &'a Option<T>) -> Option<&'a T> {
    match opt {
        Some(value) => Some(value),
        None => None,
    }
}

impl<'daft, T: 'daft> Diffable<'daft> for Option<T> {
    type Diff = Leaf<Option<&'daft T>>;

    /// The diff of two options is the pair of their contents.
    fn diff(&'daft self, other: &'daft Option<T>) -> (d: Leaf<Option<&'daft T>>)
        ensures
            d.before == spec_opt_ref(self) && d.after == spec_opt_ref(other),
    {
        let before: Option<&T> = match self {
            Some(value) => Some(value),
            None => None,
        };
        let after: Option<&T> = match other {
            Some(value) => Some(value),
            None => None,
        };
        Leaf { before, after }
    }
}

/// The result's contents, by reference.
pub open spec fn spec_res_ref<'a, T, U>(res: &'a Result<T, U>) -> Result<&'a T, &'a U> {
    match res {
        Ok(value) => Ok(value),
        Err(error) => Err(error),
    }
}

impl<'daft, T: 'daft, U: 'daft> Diffable<'daft> for Result<T, U> {
    type Diff = Leaf<Result<&'daft T, &'daft U>>;

    /// The diff of two results is the pair of their contents.
    fn diff(&'daft self, other: &'daft Result<T, U>) -> (d: Leaf<
        Result<&'daft T, &'daft U>,
    >)
        ensures
            d.before == spec_res_ref(self) && d.after == spec_res_ref(other),
    {
        let before: Result<&T, &U> = match self {
            Ok(value) => Ok(value),
            Err(error) => Err(error),
        };
        let after: Result<&T, &U> = match other {
            Ok(value) => Ok(value),
            Err(error) => Err(error),
        };
        Leaf { before, after }
    }
}

impl<'daft, A: Diffable<'daft>> Diffable<'daft> for (A,) {
    type Diff = (A::Diff,);

    /// A tuple is ready when its positions are.
    open spec fn diff_ready(&'daft self, other: &'daft (A,)) -> bool {
        self.0.diff_ready(&other.0)
    }

    /// Tuples diff position by position.
    fn diff(&'daft self, other: &'daft (A,)) -> (d: (A::Diff,))
        ensures
            call_ensures(A::diff, (&self.0, &other.0), d.0),
    {
        (self.0.diff(&other.0),)
    }
}

impl<'daft, A: Diffable<'daft>, B: Diffable<'daft>> Diffable<'daft> for (A, B) {
    type Diff = (A::Diff, B::Diff);

    /// A tuple is ready when its positions are.
    open spec fn diff_ready(&'daft self, other: &'daft (A, B)) -> bool {
        self.0.diff_ready(&other.0) && self.1.diff_ready(&other.1)
    }

    /// Tuples diff position by position.
    fn diff(&'daft self, other: &'daft (A, B)) -> (d: (A::Diff, B::Diff))
        ensures
            call_ensures(A::diff, (&self.0, &other.0), d.0),
            call_ensures(B::diff, (&self.1, &other.1), d.1),
    {
        (self.0.diff(&other.0), self.1.diff(&other.1))
    }
}

impl<'daft, A: Diffable<'daft>, B: Diffable<'daft>, C: Diffable<'daft>> Diffable<'daft> for (
    A,
    B,
    C,
) {
    type Diff = (A::Diff, B::Diff, C::Diff);

    /// A tuple is ready when its positions are.
    open spec fn diff_ready(&'daft self, other: &'daft (A, B, C)) -> bool {
        self.0.diff_ready(&other.0) && self.1.diff_ready(&other.1) && self.2.diff_ready(&other.2)
    }

    /// Tuples diff position by position.
    fn diff(&'daft self, other: &'daft (A, B, C)) -> (d: (A::Diff, B::Diff, C::Diff))
        ensures
            call_ensures(A::diff, (&self.0, &other.0), d.0),
            call_ensures(B::diff, (&self.1, &other.1), d.1),
            call_ensures(C::diff, (&self.2, &other.2), d.2),
    {
        (self.0.diff(&other.0), self.1.diff(&other.1), self.2.diff(&other.2))
    }
}

} // verus!
