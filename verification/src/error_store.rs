//! An append-only accumulator for the diagnostics of one derive invocation.
//!
//! Every stage of processing a declaration reports its findings here instead
//! of aborting: a stage that detects a problem pushes an error and keeps
//! going, and only at natural boundaries does a caller ask whether anything
//! went wrong below it. A boundary is represented by a mark, the store's
//! length at the moment the boundary was entered: the errors pushed since
//! that mark are exactly the findings of that boundary's sub-stages, since
//! the store only ever grows.

use vstd::prelude::*;

verus! {

/// An append-only store of diagnostics, consumed once at the end of an
/// invocation. Its view is the ordered sequence of errors pushed so far.
pub struct ErrorStore<T> {
    errors: Vec<T>,
}

impl<T> View for ErrorStore<T> {
    type V = Seq<T>;

    closed spec fn view(&self) -> Seq<T> {
        self.errors@
    }
}

impl<T> ErrorStore<T> {
    /// Create an empty store.
    pub fn new() -> (store: Self)
        ensures
            store@ == Seq::<T>::empty(),
    {
        ErrorStore { errors: Vec::new() }
    }

    /// Record one error. Nothing is ever dropped or reordered.
    pub fn push(&mut self, error: T)
        ensures
            final(self)@ == old(self)@.push(error),
    {
        self.errors.push(error);
    }

    /// Open a child boundary: errors pushed from now on belong to it.
    pub fn mark(&self) -> (mark: usize)
        ensures
            mark == self@.len(),
    {
        self.errors.len()
    }

    /// Whether any error has been pushed since the given boundary was opened.
    pub fn has_errors_since(&self, mark: usize) -> (dirty: bool)
        ensures
            dirty == (self@.len() > mark),
    {
        self.errors.len() > mark
    }

    /// Consume the store, yielding every error in the order it was pushed.
    pub fn into_inner(self) -> (errors: Vec<T>)
        ensures
            errors@ == self@,
    {
        self.errors
    }
}

} // verus!
