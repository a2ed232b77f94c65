//! A primitive or atomic change: the unit of "stop recursing here".

use vstd::prelude::*;
use vstd::pervasive::cloned;
use vstd::std_specs::cmp::PartialEqSpec;
use crate::diffable::Diffable;

verus! {

/// A primitive or atomic change.
///
/// `T` is normally a reference of some kind, but it can be any type.
#[derive(Clone, Copy, Debug, PartialEq, Eq)]
pub struct Leaf<T> {
    /// The value on the before side.
    pub before: T,
    /// The value on the after side.
    pub after: T,
}

impl<T> Leaf<T> {
    /// Convert from `&Leaf<T>` to `Leaf<&T>`.
    pub fn as_ref(&self) -> (r: Leaf<&T>)
        ensures
            *r.before == self.before,
            *r.after == self.after,
    {
        Leaf { before: &self.before, after: &self.after }
    }

    /// Convert from `&mut Leaf<T>` to `Leaf<&mut T>`.
    pub fn as_mut(&mut self) -> (r: Leaf<&mut T>)
        ensures
            *r.before == old(self).before,
            *r.after == old(self).after,
            final(self).before == *final(r.before),
            final(self).after == *final(r.after),
    {
        Leaf { before: &mut self.before, after: &mut self.after }
    }

    /// Convert from `Leaf<T>` or `&Leaf<T>` to `Leaf<&T::Target>`.
    pub fn as_deref(&self) -> (r: Leaf<&<T as core::ops::Deref>::Target>)
        where T: core::ops::Deref,
        ensures
            call_ensures(<T as core::ops::Deref>::deref, (&self.before,), r.before),
            call_ensures(<T as core::ops::Deref>::deref, (&self.after,), r.after),
    {
        Leaf { before: &*self.before, after: &*self.after }
    }

    /// Map a `Leaf<T>` to a `Leaf<U>` by applying a function to the
    /// `before` and `after` values.
    ///
    /// `f` is called twice: first with `before`, then with `after`.
    pub fn map<U, F: Fn(T) -> U>(self, f: F) -> (r: Leaf<U>)
        requires
            call_requires(f, (self.before,)),
            call_requires(f, (self.after,)),
        ensures
            call_ensures(f, (self.before,), r.before),
            call_ensures(f, (self.after,), r.after),
    {
        Leaf { before: f(self.before), after: f(self.after) }
    }

    /// Return true if before is the same as after.
    ///
    /// This is the same as `self.before == self.after`, but is easier
    /// to use in a chained series of method calls.
    pub fn is_unchanged(&self) -> (r: bool)
        where T: Eq,
        ensures
            T::obeys_eq_spec() ==> r == self.before.eq_spec(&self.after),
    {
        self.before == self.after
    }

    /// Return true if before is different from after.
    ///
    /// This is the same as `self.before != self.after`, but is easier
    /// to use in a chained series of method calls.
    pub fn is_modified(&self) -> (r: bool)
        where T: Eq,
        ensures
            T::obeys_eq_spec() ==> r == !self.before.eq_spec(&self.after),
    {
        self.before != self.after
    }
}

impl<'daft, T: Diffable<'daft>> Leaf<&'daft T> {
    /// Perform a diff on [`before`][Self::before] and
    /// [`after`][Self::after], returning `T::Diff`.
    ///
    /// This is useful when `T::Diff` is not a leaf node.
    pub fn diff_pair(self) -> (d: T::Diff)
        requires
            self.before.diff_ready(self.after),
        ensures
            call_ensures(T::diff, (self.before, self.after), d),
    {
        self.before.diff(self.after)
    }
}

impl<T> Leaf<&T> {
    /// Create a clone of the leaf with owned values.
    pub fn cloned(self) -> (r: Leaf<T>)
        where T: Clone,
        ensures
            cloned::<T>(*self.before, r.before),
            cloned::<T>(*self.after, r.after),
    {
        Leaf { before: self.before.clone(), after: self.after.clone() }
    }

    /// Create a copy of the leaf with owned values.
    pub fn copied(self) -> (r: Leaf<T>)
        where T: Copy,
        ensures
            r.before == *self.before,
            r.after == *self.after,
    {
        Leaf { before: *self.before, after: *self.after }
    }
}

} // verus!
