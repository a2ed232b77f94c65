//! The structured diagnostics the engine can report.
//!
//! Each error names the span of the offending annotation (an opaque index
//! handed in with the declaration model, so a front end can attach the
//! report to the exact source location) and what went wrong. The message
//! text is rendered from the structured kind by [`Error::message`].

use vstd::prelude::*;
use vstd::string::StringExecFns;
use crate::position::AttrPosition;

verus! {

/// What a single diagnostic is about.
#[derive(Debug, PartialEq, Eq)]
pub enum ErrorKind {
    /// The `leaf` annotation was given more than once on one subject.
    DuplicateLeaf,
    /// The `ignore` annotation was given more than once on one field.
    DuplicateIgnore,
    /// `leaf` was requested on a field already configured `ignore`.
    ConflictLeaf,
    /// `ignore` was requested on a field already configured `leaf`.
    ConflictIgnore,
    /// An unrecognized annotation name on a field.
    UnknownFieldAttr,
    /// An unrecognized annotation name on a struct.
    UnknownStructAttr,
    /// A `daft` annotation in a position where none is allowed.
    NotAllowed(AttrPosition),
    /// A redundant `leaf` annotation on an item that is always a leaf.
    Unnecessary(AttrPosition),
    /// The annotation-syntax layer could not parse the annotation's
    /// argument list; its own message is carried through unchanged.
    Malformed(String),
}

/// One diagnostic: a source span and the structured kind.
#[derive(Debug, PartialEq, Eq)]
pub struct Error {
    /// The span of the offending syntax, as an opaque index.
    pub span: usize,
    /// What went wrong there.
    pub kind: ErrorKind,
}

/// Spec mirror of [`ErrorKind`].
pub enum SpecErrorKind {
    DuplicateLeaf,
    DuplicateIgnore,
    ConflictLeaf,
    ConflictIgnore,
    UnknownFieldAttr,
    UnknownStructAttr,
    NotAllowed(AttrPosition),
    Unnecessary(AttrPosition),
    Malformed(Seq<char>),
}

impl DeepView for ErrorKind {
    type V = SpecErrorKind;

    open spec fn deep_view(&self) -> SpecErrorKind {
        match self {
            ErrorKind::DuplicateLeaf => SpecErrorKind::DuplicateLeaf,
            ErrorKind::DuplicateIgnore => SpecErrorKind::DuplicateIgnore,
            ErrorKind::ConflictLeaf => SpecErrorKind::ConflictLeaf,
            ErrorKind::ConflictIgnore => SpecErrorKind::ConflictIgnore,
            ErrorKind::UnknownFieldAttr => SpecErrorKind::UnknownFieldAttr,
            ErrorKind::UnknownStructAttr => SpecErrorKind::UnknownStructAttr,
            ErrorKind::NotAllowed(pos) => SpecErrorKind::NotAllowed(*pos),
            ErrorKind::Unnecessary(pos) => SpecErrorKind::Unnecessary(*pos),
            ErrorKind::Malformed(text) => SpecErrorKind::Malformed(text.deep_view()),
        }
    }
}

/// Spec mirror of [`Error`].
pub struct SpecError {
    pub span: usize,
    pub kind: SpecErrorKind,
}

impl DeepView for Error {
    type V = SpecError;

    open spec fn deep_view(&self) -> SpecError {
        SpecError { span: self.span, kind: self.kind.deep_view() }
    }
}

impl Clone for ErrorKind {
    /// An equal copy of the kind.
    fn clone(&self) -> (copy: Self)
        ensures
            copy == *self,
    {
        match self {
            ErrorKind::DuplicateLeaf => ErrorKind::DuplicateLeaf,
            ErrorKind::DuplicateIgnore => ErrorKind::DuplicateIgnore,
            ErrorKind::ConflictLeaf => ErrorKind::ConflictLeaf,
            ErrorKind::ConflictIgnore => ErrorKind::ConflictIgnore,
            ErrorKind::UnknownFieldAttr => ErrorKind::UnknownFieldAttr,
            ErrorKind::UnknownStructAttr => ErrorKind::UnknownStructAttr,
            ErrorKind::NotAllowed(pos) => ErrorKind::NotAllowed(*pos),
            ErrorKind::Unnecessary(pos) => ErrorKind::Unnecessary(*pos),
            ErrorKind::Malformed(text) => ErrorKind::Malformed(text.clone()),
        }
    }
}

impl Clone for Error {
    /// An equal copy of the diagnostic.
    fn clone(&self) -> (copy: Self)
        ensures
            copy == *self,
    {
        Error { span: self.span, kind: self.kind.clone() }
    }
}

/// The deep view of a sequence of errors.
pub open spec fn deep_errs(errors: Seq<Error>) -> Seq<SpecError> {
    errors.map_values(|e: Error| e.deep_view())
}

/// Pushing an error commutes with taking deep views.
pub proof fn lemma_deep_errs_push(errors: Seq<Error>, e: Error)
    ensures
        deep_errs(errors.push(e)) == deep_errs(errors).push(e.deep_view()),
{
    assert(deep_errs(errors.push(e)) =~= deep_errs(errors).push(e.deep_view()));
}

impl SpecErrorKind {
    /// The rendered message for this kind.
    pub open spec fn spec_message(self) -> Seq<char> {
        match self {
            SpecErrorKind::DuplicateLeaf => "#[daft(leaf)] specified multiple times"@,
            SpecErrorKind::DuplicateIgnore => "#[daft(ignore)] specified multiple times"@,
            SpecErrorKind::ConflictLeaf => "#[daft(leaf)] conflicts with other attributes"@,
            SpecErrorKind::ConflictIgnore => "#[daft(ignore)] conflicts with other attributes"@,
            SpecErrorKind::UnknownFieldAttr => "unknown attribute (supported attributes: leaf, ignore)"@,
            SpecErrorKind::UnknownStructAttr => "unknown attribute (supported attributes: leaf)"@,
            SpecErrorKind::NotAllowed(pos) => "daft attributes are not allowed "@
                + pos.spec_locative_str(),
            SpecErrorKind::Unnecessary(pos) => "this is unnecessary: the Diffable implementation "@
                + pos.spec_purpose_str() + " is always a leaf"@,
            SpecErrorKind::Malformed(text) => text,
        }
    }
}

impl Error {
    /// Render the human-readable message for this diagnostic.
    pub fn message(&self) -> (text: String)
        ensures
            text@ == self.kind.deep_view().spec_message(),
    {
        match &self.kind {
            ErrorKind::DuplicateLeaf => String::from_str(
                "#[daft(leaf)] specified multiple times",
            ),
            ErrorKind::DuplicateIgnore => String::from_str(
                "#[daft(ignore)] specified multiple times",
            ),
            ErrorKind::ConflictLeaf => String::from_str(
                "#[daft(leaf)] conflicts with other attributes",
            ),
            ErrorKind::ConflictIgnore => String::from_str(
                "#[daft(ignore)] conflicts with other attributes",
            ),
            ErrorKind::UnknownFieldAttr => String::from_str(
                "unknown attribute (supported attributes: leaf, ignore)",
            ),
            ErrorKind::UnknownStructAttr => String::from_str(
                "unknown attribute (supported attributes: leaf)",
            ),
            ErrorKind::NotAllowed(pos) => String::from_str(
                "daft attributes are not allowed ",
            ).concat((*pos).as_locative_str()),
            ErrorKind::Unnecessary(pos) => String::from_str(
                "this is unnecessary: the Diffable implementation ",
            ).concat((*pos).as_purpose_str()).concat(" is always a leaf"),
            ErrorKind::Malformed(text) => text.clone(),
        }
    }
}

} // verus!
