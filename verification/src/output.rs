//! The engine's output model: what the generated code will be.
//!
//! The synthesizers produce these values rather than raw token text, so
//! the whole plan of the generated code — which fields the companion
//! type has and with which rewritten types, which bounds each helper
//! implementation carries, and how the diffing implementation fills
//! each field — is a plain value that contracts can speak about. A
//! front end renders an [`OutputCode`] into source text.

use vstd::prelude::*;
use vstd::string::StringExecFns;
use crate::ast::{clone_strings, Generics, SpecGenerics};
use crate::config::FieldConfig;
use crate::diag::Error;

verus! {

// ------------------------------------------------------ companion type

/// The rewritten type of one companion field.
#[derive(Debug, PartialEq, Eq)]
pub enum DiffTy {
    /// An opaque before/after pair borrowed for the diff lifetime, over
    /// the original field type carried here as token text.
    Leaf(String),
    /// The associated diff type of the original field type,
    /// parameterized by the diff lifetime.
    Recurse(String),
}

/// Spec mirror of [`DiffTy`].
pub enum SpecDiffTy {
    Leaf(Seq<char>),
    Recurse(Seq<char>),
}

impl DeepView for DiffTy {
    type V = SpecDiffTy;

    open spec fn deep_view(&self) -> SpecDiffTy {
        match self {
            DiffTy::Leaf(ty) => SpecDiffTy::Leaf(ty.deep_view()),
            DiffTy::Recurse(ty) => SpecDiffTy::Recurse(ty.deep_view()),
        }
    }
}

impl Clone for DiffTy {
    /// A copy with the same view.
    fn clone(&self) -> (copy: Self)
        ensures
            copy.deep_view() == self.deep_view(),
    {
        match self {
            DiffTy::Leaf(ty) => DiffTy::Leaf(ty.clone()),
            DiffTy::Recurse(ty) => DiffTy::Recurse(ty.clone()),
        }
    }
}

/// One retained field of the companion type.
#[derive(Debug, PartialEq, Eq)]
pub struct DiffField {
    /// The field's name; positional fields have none.
    pub name: Option<String>,
    /// The field's visibility, carried from the original field.
    pub vis: String,
    /// The rewritten field type.
    pub ty: DiffTy,
    /// The span of the original field.
    pub span: usize,
}

/// Spec mirror of [`DiffField`].
pub struct SpecDiffField {
    pub name: Option<Seq<char>>,
    pub vis: Seq<char>,
    pub ty: SpecDiffTy,
    pub span: usize,
}

impl DeepView for DiffField {
    type V = SpecDiffField;

    open spec fn deep_view(&self) -> SpecDiffField {
        SpecDiffField {
            name: self.name.deep_view(),
            vis: self.vis.deep_view(),
            ty: self.ty.deep_view(),
            span: self.span,
        }
    }
}

impl Clone for DiffField {
    /// A copy with the same view.
    fn clone(&self) -> (copy: Self)
        ensures
            copy.deep_view() == self.deep_view(),
    {
        let name = match &self.name {
            Some(n) => Some(n.clone()),
            None => None,
        };
        DiffField { name, vis: self.vis.clone(), ty: self.ty.clone(), span: self.span }
    }
}

/// A copy of a list of companion fields.
pub fn clone_diff_fields(fields: &Vec<DiffField>) -> (copy: Vec<DiffField>)
    ensures
        copy.deep_view() == fields.deep_view(),
{
    let mut copy: Vec<DiffField> = Vec::new();
    let mut i: usize = 0;
    while i < fields.len()
        invariant
            i <= fields@.len(),
            copy@.len() == i,
            forall|k: int|
                0 <= k < i ==> #[trigger] copy@[k].deep_view() == fields@[k].deep_view(),
        decreases fields@.len() - i,
    {
        let item = fields[i].clone();
        copy.push(item);
        i += 1;
    }
    proof {
        assert forall|k: int| 0 <= k < copy@.len() implies copy.deep_view()[k]
            == fields.deep_view()[k] by {
            assert(copy@[k].deep_view() == fields@[k].deep_view());
        }
        assert(copy.deep_view() =~= fields.deep_view());
    }
    copy
}

/// The shape of the companion type's field list, mirroring the original.
#[derive(Clone, Copy, Debug, PartialEq, Eq, Structural)]
pub enum ShapeKind {
    /// Named fields in braces.
    Named,
    /// Positional fields in parentheses.
    Unnamed,
    /// No fields.
    Unit,
}

/// How one field is referred to in generated code.
#[derive(Debug, PartialEq, Eq)]
pub enum Member {
    /// By name.
    Named(String),
    /// By position.
    Position(usize),
}

/// Spec mirror of [`Member`].
pub enum SpecMember {
    Named(Seq<char>),
    Position(usize),
}

impl DeepView for Member {
    type V = SpecMember;

    open spec fn deep_view(&self) -> SpecMember {
        match self {
            Member::Named(name) => SpecMember::Named(name.deep_view()),
            Member::Position(index) => SpecMember::Position(*index),
        }
    }
}

/// The capability a helper implementation requires of each retained
/// companion field type.
#[derive(Clone, Copy, Debug, PartialEq, Eq, Structural)]
pub enum BoundTrait {
    /// `core::fmt::Debug`.
    FmtDebug,
    /// `core::cmp::PartialEq`.
    CmpPartialEq,
    /// `core::cmp::Eq`.
    CmpEq,
}

/// A `where` clause for a helper implementation: the declaration's own
/// predicates, then one `ty: bound` predicate for every retained
/// companion field type, in field order.
#[derive(Debug, PartialEq, Eq)]
pub struct BoundedWhereClause {
    /// The predicates carried over from the declaration.
    pub base: Vec<String>,
    /// The capability required of each field type.
    pub bound: BoundTrait,
    /// The retained companion field types, in order.
    pub tys: Vec<DiffTy>,
}

/// Spec mirror of [`BoundedWhereClause`].
pub struct SpecBoundedWhereClause {
    pub base: Seq<Seq<char>>,
    pub bound: BoundTrait,
    pub tys: Seq<SpecDiffTy>,
}

impl DeepView for BoundedWhereClause {
    type V = SpecBoundedWhereClause;

    open spec fn deep_view(&self) -> SpecBoundedWhereClause {
        SpecBoundedWhereClause {
            base: self.base.deep_view(),
            bound: self.bound,
            tys: self.tys.deep_view(),
        }
    }
}

/// The companion type's declaration.
#[derive(Debug, PartialEq, Eq)]
pub struct DiffStructDef {
    /// The original type's name; the companion is named after it, see
    /// [`diff_ident`][Self::diff_ident].
    pub ident: String,
    /// The original type's visibility, carried over.
    pub vis: String,
    /// Whether the original was marked non-exhaustive; the companion
    /// carries the same marker.
    pub non_exhaustive: bool,
    /// The augmented generics: the diff lifetime first, every original
    /// parameter bounded to outlive it.
    pub generics: Generics,
    /// The shape of the field list, mirroring the original.
    pub shape: ShapeKind,
    /// The retained fields with their rewritten types. A field whose
    /// configuration failed or said ignore is absent.
    pub fields: Vec<DiffField>,
}

/// Spec mirror of [`DiffStructDef`].
pub struct SpecDiffStructDef {
    pub ident: Seq<char>,
    pub vis: Seq<char>,
    pub non_exhaustive: bool,
    pub generics: SpecGenerics,
    pub shape: ShapeKind,
    pub fields: Seq<SpecDiffField>,
}

impl DeepView for DiffStructDef {
    type V = SpecDiffStructDef;

    open spec fn deep_view(&self) -> SpecDiffStructDef {
        SpecDiffStructDef {
            ident: self.ident.deep_view(),
            vis: self.vis.deep_view(),
            non_exhaustive: self.non_exhaustive,
            generics: self.generics.deep_view(),
            shape: self.shape,
            fields: self.fields.deep_view(),
        }
    }
}

impl DiffStructDef {
    /// The companion type's name: the original name followed by `Diff`.
    pub fn diff_ident(&self) -> (name: String)
        ensures
            name@ == self.ident@ + "Diff"@,
    {
        self.ident.clone().concat("Diff")
    }
}

/// The manual `Debug` implementation for the companion type.
#[derive(Debug, PartialEq, Eq)]
pub struct DebugImpl {
    /// The original type's name; the implementation is for its companion.
    pub ident: String,
    /// The augmented generics.
    pub generics: Generics,
    /// The base predicates plus a `Debug` bound per retained field type.
    pub where_clause: BoundedWhereClause,
    /// The members printed, in field order.
    pub members: Vec<Member>,
    /// The shape formatted: named struct, tuple or empty struct.
    pub shape: ShapeKind,
    /// Whether formatting finishes in the truncated-field-list style,
    /// inherited from the non-exhaustive marker.
    pub finish_non_exhaustive: bool,
}

/// Spec mirror of [`DebugImpl`].
pub struct SpecDebugImpl {
    pub ident: Seq<char>,
    pub generics: SpecGenerics,
    pub where_clause: SpecBoundedWhereClause,
    pub members: Seq<SpecMember>,
    pub shape: ShapeKind,
    pub finish_non_exhaustive: bool,
}

impl DeepView for DebugImpl {
    type V = SpecDebugImpl;

    open spec fn deep_view(&self) -> SpecDebugImpl {
        SpecDebugImpl {
            ident: self.ident.deep_view(),
            generics: self.generics.deep_view(),
            where_clause: self.where_clause.deep_view(),
            members: self.members.deep_view(),
            shape: self.shape,
            finish_non_exhaustive: self.finish_non_exhaustive,
        }
    }
}

/// The manual `PartialEq` implementation for the companion type: the
/// conjunction of member-by-member comparisons.
#[derive(Debug, PartialEq, Eq)]
pub struct PartialEqImpl {
    /// The original type's name; the implementation is for its companion.
    pub ident: String,
    /// The augmented generics.
    pub generics: Generics,
    /// The base predicates plus a `PartialEq` bound per retained field type.
    pub where_clause: BoundedWhereClause,
    /// The members compared, in field order.
    pub members: Vec<Member>,
}

/// Spec mirror of [`PartialEqImpl`].
pub struct SpecPartialEqImpl {
    pub ident: Seq<char>,
    pub generics: SpecGenerics,
    pub where_clause: SpecBoundedWhereClause,
    pub members: Seq<SpecMember>,
}

impl DeepView for PartialEqImpl {
    type V = SpecPartialEqImpl;

    open spec fn deep_view(&self) -> SpecPartialEqImpl {
        SpecPartialEqImpl {
            ident: self.ident.deep_view(),
            generics: self.generics.deep_view(),
            where_clause: self.where_clause.deep_view(),
            members: self.members.deep_view(),
        }
    }
}

/// The marker `Eq` implementation for the companion type.
#[derive(Debug, PartialEq, Eq)]
pub struct EqImpl {
    /// The original type's name; the implementation is for its companion.
    pub ident: String,
    /// The augmented generics.
    pub generics: Generics,
    /// The base predicates plus an `Eq` bound per retained field type.
    pub where_clause: BoundedWhereClause,
}

/// Spec mirror of [`EqImpl`].
pub struct SpecEqImpl {
    pub ident: Seq<char>,
    pub generics: SpecGenerics,
    pub where_clause: SpecBoundedWhereClause,
}

impl DeepView for EqImpl {
    type V = SpecEqImpl;

    open spec fn deep_view(&self) -> SpecEqImpl {
        SpecEqImpl {
            ident: self.ident.deep_view(),
            generics: self.generics.deep_view(),
            where_clause: self.where_clause.deep_view(),
        }
    }
}

/// Everything generated for the companion type itself: its declaration
/// and the three helper implementations.
#[derive(Debug, PartialEq, Eq)]
pub struct DiffStruct {
    /// The companion type's declaration.
    pub def: DiffStructDef,
    /// Its `Debug` implementation.
    pub debug_impl: DebugImpl,
    /// Its `PartialEq` implementation.
    pub partial_eq_impl: PartialEqImpl,
    /// Its `Eq` implementation.
    pub eq_impl: EqImpl,
}

/// Spec mirror of [`DiffStruct`].
pub struct SpecDiffStruct {
    pub def: SpecDiffStructDef,
    pub debug_impl: SpecDebugImpl,
    pub partial_eq_impl: SpecPartialEqImpl,
    pub eq_impl: SpecEqImpl,
}

impl DeepView for DiffStruct {
    type V = SpecDiffStruct;

    open spec fn deep_view(&self) -> SpecDiffStruct {
        SpecDiffStruct {
            def: self.def.deep_view(),
            debug_impl: self.debug_impl.deep_view(),
            partial_eq_impl: self.partial_eq_impl.deep_view(),
            eq_impl: self.eq_impl.deep_view(),
        }
    }
}

// ----------------------------------------------------------- trait impl

/// How the diffing implementation fills one companion field.
#[derive(Debug, PartialEq, Eq)]
pub enum FieldDiffOp {
    /// Wrap references to the member's before and after values as an
    /// opaque pair.
    LeafWrap(Member),
    /// Delegate to the member's own diffing implementation.
    RecurseDiff(Member),
}

/// Spec mirror of [`FieldDiffOp`].
pub enum SpecFieldDiffOp {
    LeafWrap(SpecMember),
    RecurseDiff(SpecMember),
}

impl DeepView for FieldDiffOp {
    type V = SpecFieldDiffOp;

    open spec fn deep_view(&self) -> SpecFieldDiffOp {
        match self {
            FieldDiffOp::LeafWrap(member) => SpecFieldDiffOp::LeafWrap(member.deep_view()),
            FieldDiffOp::RecurseDiff(member) => SpecFieldDiffOp::RecurseDiff(member.deep_view()),
        }
    }
}

/// The diffing-trait implementation for the original struct: its
/// associated diff type is the companion type, and the method fills
/// each retained field with its operation.
#[derive(Debug, PartialEq, Eq)]
pub struct DiffImpl {
    /// The original type's name.
    pub ident: String,
    /// The original generics, for the implementation header.
    pub generics: Generics,
    /// The augmented generics, for naming the companion type.
    pub new_generics: Generics,
    /// One operation per retained field, in field order.
    pub field_diffs: Vec<FieldDiffOp>,
}

/// Spec mirror of [`DiffImpl`].
pub struct SpecDiffImpl {
    pub ident: Seq<char>,
    pub generics: SpecGenerics,
    pub new_generics: SpecGenerics,
    pub field_diffs: Seq<SpecFieldDiffOp>,
}

impl DeepView for DiffImpl {
    type V = SpecDiffImpl;

    open spec fn deep_view(&self) -> SpecDiffImpl {
        SpecDiffImpl {
            ident: self.ident.deep_view(),
            generics: self.generics.deep_view(),
            new_generics: self.new_generics.deep_view(),
            field_diffs: self.field_diffs.deep_view(),
        }
    }
}

/// The diffing-trait implementation that treats the whole type as one
/// opaque leaf: the associated diff type is a before/after pair over
/// `Self`, and the method wraps the two references directly.
#[derive(Debug, PartialEq, Eq)]
pub struct LeafImpl {
    /// The type's name.
    pub ident: String,
    /// The type's own generics, carried through unaugmented.
    pub generics: Generics,
}

/// Spec mirror of [`LeafImpl`].
pub struct SpecLeafImpl {
    pub ident: Seq<char>,
    pub generics: SpecGenerics,
}

impl DeepView for LeafImpl {
    type V = SpecLeafImpl;

    open spec fn deep_view(&self) -> SpecLeafImpl {
        SpecLeafImpl { ident: self.ident.deep_view(), generics: self.generics.deep_view() }
    }
}

// -------------------------------------------------------- whole output

/// The code generated for one declaration.
#[derive(Debug, PartialEq, Eq)]
pub enum OutputCode {
    /// A leaf implementation alone: enums, unions, and structs marked
    /// leaf get no companion type.
    Leaf(LeafImpl),
    /// A companion type with its helpers, and the diffing
    /// implementation wiring the original type to it.
    Struct(DiffStruct, DiffImpl),
}

/// Spec mirror of [`OutputCode`].
pub enum SpecOutputCode {
    Leaf(SpecLeafImpl),
    Struct(SpecDiffStruct, SpecDiffImpl),
}

impl DeepView for OutputCode {
    type V = SpecOutputCode;

    open spec fn deep_view(&self) -> SpecOutputCode {
        match self {
            OutputCode::Leaf(leaf) => SpecOutputCode::Leaf(leaf.deep_view()),
            OutputCode::Struct(decl, imp) => SpecOutputCode::Struct(
                decl.deep_view(),
                imp.deep_view(),
            ),
        }
    }
}

/// What one derive invocation hands back: the generated code, if any
/// part of it could be built, and every diagnostic accumulated along
/// the way. Both are emitted: the code keeps the type usable for
/// downstream tooling even when diagnostics accompany it.
#[derive(Debug, PartialEq, Eq)]
pub struct DeriveDiffableOutput {
    /// The generated code, or nothing if the configuration was invalid.
    pub out: Option<OutputCode>,
    /// The diagnostics, in the order they were found.
    pub errors: Vec<Error>,
}

/// Spec mirror of [`DeriveDiffableOutput`].
pub struct SpecDeriveDiffableOutput {
    pub out: Option<SpecOutputCode>,
    pub errors: Seq<crate::diag::SpecError>,
}

impl DeepView for DeriveDiffableOutput {
    type V = SpecDeriveDiffableOutput;

    open spec fn deep_view(&self) -> SpecDeriveDiffableOutput {
        SpecDeriveDiffableOutput {
            out: self.out.deep_view(),
            errors: self.errors.deep_view(),
        }
    }
}

/// The retained field types, in order: what the bounded `where` clauses
/// range over.
pub fn diff_field_types(fields: &Vec<DiffField>) -> (tys: Vec<DiffTy>)
    ensures
        tys.deep_view() == fields.deep_view().map_values(|f: SpecDiffField| f.ty),
{
    let mut tys: Vec<DiffTy> = Vec::new();
    let mut i: usize = 0;
    while i < fields.len()
        invariant
            i <= fields@.len(),
            tys@.len() == i,
            forall|k: int| 0 <= k < i ==> #[trigger] tys@[k].deep_view() == fields@[k].deep_view().ty,
        decreases fields@.len() - i,
    {
        let ty = fields[i].ty.clone();
        tys.push(ty);
        i += 1;
    }
    proof {
        assert forall|k: int| 0 <= k < tys@.len() implies tys.deep_view()[k]
            == fields.deep_view().map_values(|f: SpecDiffField| f.ty)[k] by {
            assert(tys@[k].deep_view() == fields@[k].deep_view().ty);
            assert(fields.deep_view()[k] == fields@[k].deep_view());
        }
        assert(tys.deep_view() =~= fields.deep_view().map_values(|f: SpecDiffField| f.ty));
    }
    tys
}

/// The members of the retained fields, in order: a named field by its
/// name, a positional field by its position in the companion type.
pub fn diff_field_members(fields: &Vec<DiffField>) -> (members: Vec<Member>)
    ensures
        members.deep_view() == spec_members(fields.deep_view()),
{
    let mut members: Vec<Member> = Vec::new();
    let mut i: usize = 0;
    while i < fields.len()
        invariant
            i <= fields@.len(),
            members@.len() == i,
            forall|k: int|
                0 <= k < i ==> #[trigger] members@[k].deep_view() == spec_member_of(
                    fields@[k].deep_view(),
                    k,
                ),
        decreases fields@.len() - i,
    {
        let member = match &fields[i].name {
            Some(name) => Member::Named(name.clone()),
            None => Member::Position(i),
        };
        members.push(member);
        i += 1;
    }
    proof {
        assert forall|k: int| 0 <= k < members@.len() implies members.deep_view()[k]
            == spec_members(fields.deep_view())[k] by {
            assert(members@[k].deep_view() == spec_member_of(fields@[k].deep_view(), k));
            assert(fields.deep_view()[k] == fields@[k].deep_view());
        }
        assert(members.deep_view() =~= spec_members(fields.deep_view()));
    }
    members
}

/// How one retained field is referred to, given its position.
pub open spec fn spec_member_of(field: SpecDiffField, index: int) -> SpecMember {
    match field.name {
        Some(name) => SpecMember::Named(name),
        None => SpecMember::Position(index as usize),
    }
}

/// The members of all retained fields, in order.
pub open spec fn spec_members(fields: Seq<SpecDiffField>) -> Seq<SpecMember> {
    Seq::new(fields.len(), |i: int| spec_member_of(fields[i], i))
}

} // verus!
