//! The declaration model the engine works on.
//!
//! A derive invocation hands the engine one struct, enum or union
//! declaration. The engine only ever reads a small, fixed portion of it:
//! identifiers, the generic parameter list, the shape of the fields, and
//! the annotations attached to the item, its fields and its variants.
//! This module describes exactly that portion as plain values. Token text
//! the engine carries through without interpreting (field types, bounds,
//! where-clause predicates, visibility) is kept as opaque strings; spans
//! are opaque indices a front end can map back to source locations.
//!
//! Each exec type has a spec-level mirror reached through `deep_view`, so
//! contracts can speak about whole declarations as mathematical values.

use vstd::prelude::*;

verus! {

// ---------------------------------------------------------------- metas

/// One name inside a `daft(...)` annotation's argument list.
#[derive(Debug, PartialEq, Eq)]
pub struct NestedMeta {
    /// The bare identifier, e.g. `leaf`.
    pub name: String,
    /// The span of this name.
    pub span: usize,
}

/// Spec mirror of [`NestedMeta`].
pub struct SpecNestedMeta {
    pub name: Seq<char>,
    pub span: usize,
}

impl DeepView for NestedMeta {
    type V = SpecNestedMeta;

    open spec fn deep_view(&self) -> SpecNestedMeta {
        SpecNestedMeta { name: self.name.deep_view(), span: self.span }
    }
}

/// A failure of the annotation-syntax layer while reading the argument
/// list of a `daft` annotation, e.g. a name given a payload it does not
/// accept. The names read before the failure are still reported normally;
/// the failure itself carries the syntax layer's own message.
#[derive(Debug, PartialEq, Eq)]
pub struct ParseIssue {
    /// The span of the unparsable syntax.
    pub span: usize,
    /// The syntax layer's message, carried through unchanged.
    pub message: String,
}

/// Spec mirror of [`ParseIssue`].
pub struct SpecParseIssue {
    pub span: usize,
    pub message: Seq<char>,
}

impl DeepView for ParseIssue {
    type V = SpecParseIssue;

    open spec fn deep_view(&self) -> SpecParseIssue {
        SpecParseIssue { span: self.span, message: self.message.deep_view() }
    }
}

/// The argument list of one `daft(...)` annotation: the names whose
/// parsing succeeded, and, if the syntax layer then failed, the issue
/// that ended the list early.
#[derive(Debug, PartialEq, Eq)]
pub struct DaftAttr {
    /// The names read, in order.
    pub metas: Vec<NestedMeta>,
    /// A trailing syntax failure, if any.
    pub issue: Option<ParseIssue>,
}

/// Spec mirror of [`DaftAttr`].
pub struct SpecDaftAttr {
    pub metas: Seq<SpecNestedMeta>,
    pub issue: Option<SpecParseIssue>,
}

impl DeepView for DaftAttr {
    type V = SpecDaftAttr;

    open spec fn deep_view(&self) -> SpecDaftAttr {
        SpecDaftAttr { metas: self.metas.deep_view(), issue: self.issue.deep_view() }
    }
}

/// What one attribute on an item, field or variant is.
#[derive(Debug, PartialEq, Eq)]
pub enum AttrKind {
    /// A `daft(...)` annotation, the namespace this engine owns.
    Daft(DaftAttr),
    /// The `non_exhaustive` marker, which the companion type inherits.
    NonExhaustive,
    /// Any other attribute; the engine leaves it alone.
    Other,
}

/// Spec mirror of [`AttrKind`].
pub enum SpecAttrKind {
    Daft(SpecDaftAttr),
    NonExhaustive,
    Other,
}

impl DeepView for AttrKind {
    type V = SpecAttrKind;

    open spec fn deep_view(&self) -> SpecAttrKind {
        match self {
            AttrKind::Daft(a) => SpecAttrKind::Daft(a.deep_view()),
            AttrKind::NonExhaustive => SpecAttrKind::NonExhaustive,
            AttrKind::Other => SpecAttrKind::Other,
        }
    }
}

/// One attribute together with its span.
#[derive(Debug, PartialEq, Eq)]
pub struct Attr {
    /// The span of the whole attribute.
    pub span: usize,
    /// What the attribute is.
    pub kind: AttrKind,
}

/// Spec mirror of [`Attr`].
pub struct SpecAttr {
    pub span: usize,
    pub kind: SpecAttrKind,
}

impl DeepView for Attr {
    type V = SpecAttr;

    open spec fn deep_view(&self) -> SpecAttr {
        SpecAttr { span: self.span, kind: self.kind.deep_view() }
    }
}

// ------------------------------------------------------------- generics

/// A bound on a type parameter.
#[derive(Debug, PartialEq, Eq)]
pub enum Bound {
    /// An outlives bound: the name of a lifetime, without the tick.
    Outlives(String),
    /// Any other bound, carried as opaque token text.
    Trait(String),
}

/// Spec mirror of [`Bound`].
pub enum SpecBound {
    Outlives(Seq<char>),
    Trait(Seq<char>),
}

impl DeepView for Bound {
    type V = SpecBound;

    open spec fn deep_view(&self) -> SpecBound {
        match self {
            Bound::Outlives(name) => SpecBound::Outlives(name.deep_view()),
            Bound::Trait(text) => SpecBound::Trait(text.deep_view()),
        }
    }
}

/// A declared lifetime parameter.
#[derive(Debug, PartialEq, Eq)]
pub struct LifetimeParam {
    /// The lifetime's name, without the tick.
    pub name: String,
    /// The lifetimes it is declared to outlive, without the ticks.
    pub bounds: Vec<String>,
}

/// Spec mirror of [`LifetimeParam`].
pub struct SpecLifetimeParam {
    pub name: Seq<char>,
    pub bounds: Seq<Seq<char>>,
}

impl DeepView for LifetimeParam {
    type V = SpecLifetimeParam;

    open spec fn deep_view(&self) -> SpecLifetimeParam {
        SpecLifetimeParam { name: self.name.deep_view(), bounds: self.bounds.deep_view() }
    }
}

/// A declared type parameter.
#[derive(Debug, PartialEq, Eq)]
pub struct TypeParam {
    /// The parameter's name.
    pub name: String,
    /// Its declared bounds.
    pub bounds: Vec<Bound>,
    /// Its default, as opaque token text, if it has one.
    pub default: Option<String>,
}

/// Spec mirror of [`TypeParam`].
pub struct SpecTypeParam {
    pub name: Seq<char>,
    pub bounds: Seq<SpecBound>,
    pub default: Option<Seq<char>>,
}

impl DeepView for TypeParam {
    type V = SpecTypeParam;

    open spec fn deep_view(&self) -> SpecTypeParam {
        SpecTypeParam {
            name: self.name.deep_view(),
            bounds: self.bounds.deep_view(),
            default: self.default.deep_view(),
        }
    }
}

/// A declared const parameter, carried as opaque token text.
#[derive(Debug, PartialEq, Eq)]
pub struct ConstParam {
    /// The whole parameter, e.g. `const N: usize`.
    pub text: String,
}

/// Spec mirror of [`ConstParam`].
pub struct SpecConstParam {
    pub text: Seq<char>,
}

impl DeepView for ConstParam {
    type V = SpecConstParam;

    open spec fn deep_view(&self) -> SpecConstParam {
        SpecConstParam { text: self.text.deep_view() }
    }
}

/// One declared generic parameter.
#[derive(Debug, PartialEq, Eq)]
pub enum GenericParam {
    /// A lifetime parameter.
    Lifetime(LifetimeParam),
    /// A type parameter.
    Type(TypeParam),
    /// A const parameter.
    Const(ConstParam),
}

/// Spec mirror of [`GenericParam`].
pub enum SpecGenericParam {
    Lifetime(SpecLifetimeParam),
    Type(SpecTypeParam),
    Const(SpecConstParam),
}

impl DeepView for GenericParam {
    type V = SpecGenericParam;

    open spec fn deep_view(&self) -> SpecGenericParam {
        match self {
            GenericParam::Lifetime(p) => SpecGenericParam::Lifetime(p.deep_view()),
            GenericParam::Type(p) => SpecGenericParam::Type(p.deep_view()),
            GenericParam::Const(p) => SpecGenericParam::Const(p.deep_view()),
        }
    }
}

/// A `where` clause: its predicates as opaque token text.
#[derive(Debug, PartialEq, Eq)]
pub struct WhereClause {
    /// The predicates, in order.
    pub predicates: Vec<String>,
}

/// Spec mirror of [`WhereClause`].
pub struct SpecWhereClause {
    pub predicates: Seq<Seq<char>>,
}

impl DeepView for WhereClause {
    type V = SpecWhereClause;

    open spec fn deep_view(&self) -> SpecWhereClause {
        SpecWhereClause { predicates: self.predicates.deep_view() }
    }
}

/// A declared generic parameter list with its optional `where` clause.
#[derive(Debug, PartialEq, Eq)]
pub struct Generics {
    /// The parameters, in declaration order.
    pub params: Vec<GenericParam>,
    /// The trailing `where` clause, if any.
    pub where_clause: Option<WhereClause>,
}

/// Spec mirror of [`Generics`].
pub struct SpecGenerics {
    pub params: Seq<SpecGenericParam>,
    pub where_clause: Option<SpecWhereClause>,
}

impl DeepView for Generics {
    type V = SpecGenerics;

    open spec fn deep_view(&self) -> SpecGenerics {
        SpecGenerics {
            params: self.params.deep_view(),
            where_clause: self.where_clause.deep_view(),
        }
    }
}

// ------------------------------------------------- copying the generics

/// A copy of a list of lifetime names.
pub fn clone_strings(strings: &Vec<String>) -> (copy: Vec<String>)
    ensures
        copy.deep_view() == strings.deep_view(),
{
    let mut copy: Vec<String> = Vec::new();
    let mut i: usize = 0;
    while i < strings.len()
        invariant
            i <= strings@.len(),
            copy@.len() == i,
            forall|k: int| 0 <= k < i ==> #[trigger] copy@[k].deep_view() == strings@[k].deep_view(),
        decreases strings@.len() - i,
    {
        let item = strings[i].clone();
        copy.push(item);
        i += 1;
    }
    proof {
        assert forall|k: int| 0 <= k < copy@.len() implies copy.deep_view()[k]
            == strings.deep_view()[k] by {
            assert(copy@[k].deep_view() == strings@[k].deep_view());
        }
        assert(copy.deep_view() =~= strings.deep_view());
    }
    copy
}

impl Clone for Bound {
    /// A copy with the same view.
    fn clone(&self) -> (copy: Self)
        ensures
            copy.deep_view() == self.deep_view(),
    {
        match self {
            Bound::Outlives(name) => Bound::Outlives(name.clone()),
            Bound::Trait(text) => Bound::Trait(text.clone()),
        }
    }
}

/// A copy of a list of bounds.
pub fn clone_bounds(bounds: &Vec<Bound>) -> (copy: Vec<Bound>)
    ensures
        copy.deep_view() == bounds.deep_view(),
{
    let mut copy: Vec<Bound> = Vec::new();
    let mut i: usize = 0;
    while i < bounds.len()
        invariant
            i <= bounds@.len(),
            copy@.len() == i,
            forall|k: int| 0 <= k < i ==> #[trigger] copy@[k].deep_view() == bounds@[k].deep_view(),
        decreases bounds@.len() - i,
    {
        let item = bounds[i].clone();
        copy.push(item);
        i += 1;
    }
    proof {
        assert forall|k: int| 0 <= k < copy@.len() implies copy.deep_view()[k]
            == bounds.deep_view()[k] by {
            assert(copy@[k].deep_view() == bounds@[k].deep_view());
        }
        assert(copy.deep_view() =~= bounds.deep_view());
    }
    copy
}

impl Clone for LifetimeParam {
    /// A copy with the same view.
    fn clone(&self) -> (copy: Self)
        ensures
            copy.deep_view() == self.deep_view(),
    {
        LifetimeParam { name: self.name.clone(), bounds: clone_strings(&self.bounds) }
    }
}

impl Clone for TypeParam {
    /// A copy with the same view.
    fn clone(&self) -> (copy: Self)
        ensures
            copy.deep_view() == self.deep_view(),
    {
        let default = match &self.default {
            Some(text) => Some(text.clone()),
            None => None,
        };
        TypeParam { name: self.name.clone(), bounds: clone_bounds(&self.bounds), default }
    }
}

impl Clone for ConstParam {
    /// A copy with the same view.
    fn clone(&self) -> (copy: Self)
        ensures
            copy.deep_view() == self.deep_view(),
    {
        ConstParam { text: self.text.clone() }
    }
}

impl Clone for GenericParam {
    /// A copy with the same view.
    fn clone(&self) -> (copy: Self)
        ensures
            copy.deep_view() == self.deep_view(),
    {
        match self {
            GenericParam::Lifetime(p) => GenericParam::Lifetime(p.clone()),
            GenericParam::Type(p) => GenericParam::Type(p.clone()),
            GenericParam::Const(p) => GenericParam::Const(p.clone()),
        }
    }
}

impl Clone for WhereClause {
    /// A copy with the same view.
    fn clone(&self) -> (copy: Self)
        ensures
            copy.deep_view() == self.deep_view(),
    {
        WhereClause { predicates: clone_strings(&self.predicates) }
    }
}

/// A copy of an optional `where` clause.
pub fn clone_where_clause(clause: &Option<WhereClause>) -> (copy: Option<WhereClause>)
    ensures
        copy.deep_view() == clause.deep_view(),
{
    match clause {
        Some(w) => Some(w.clone()),
        None => None,
    }
}

impl Clone for Generics {
    /// A copy with the same view.
    fn clone(&self) -> (copy: Self)
        ensures
            copy.deep_view() == self.deep_view(),
    {
        let mut params: Vec<GenericParam> = Vec::new();
        let mut i: usize = 0;
        while i < self.params.len()
            invariant
                i <= self.params@.len(),
                params@.len() == i,
                forall|k: int| 0 <= k < i ==> #[trigger] params@[k].deep_view() == self.params@[k].deep_view(),
            decreases self.params@.len() - i,
        {
            let item = self.params[i].clone();
            params.push(item);
            i += 1;
        }
        proof {
            assert forall|k: int| 0 <= k < params@.len() implies params.deep_view()[k]
                == self.params.deep_view()[k] by {
                assert(params@[k].deep_view() == self.params@[k].deep_view());
            }
            assert(params.deep_view() =~= self.params.deep_view());
        }
        Generics { params, where_clause: clone_where_clause(&self.where_clause) }
    }
}

// --------------------------------------------------------------- fields

/// One declared field.
#[derive(Debug, PartialEq, Eq)]
pub struct Field {
    /// The field's name; positional fields have none.
    pub name: Option<String>,
    /// The field's visibility, as opaque token text.
    pub vis: String,
    /// The field's type, as opaque token text.
    pub ty: String,
    /// The attributes on the field.
    pub attrs: Vec<Attr>,
    /// The span of the whole field.
    pub span: usize,
}

/// Spec mirror of [`Field`].
pub struct SpecField {
    pub name: Option<Seq<char>>,
    pub vis: Seq<char>,
    pub ty: Seq<char>,
    pub attrs: Seq<SpecAttr>,
    pub span: usize,
}

impl DeepView for Field {
    type V = SpecField;

    open spec fn deep_view(&self) -> SpecField {
        SpecField {
            name: self.name.deep_view(),
            vis: self.vis.deep_view(),
            ty: self.ty.deep_view(),
            attrs: self.attrs.deep_view(),
            span: self.span,
        }
    }
}

/// The shape of a struct's or variant's field list.
#[derive(Debug, PartialEq, Eq)]
pub enum FieldList {
    /// Named fields in braces.
    Named(Vec<Field>),
    /// Positional fields in parentheses.
    Unnamed(Vec<Field>),
    /// No field list at all.
    Unit,
}

/// Spec mirror of [`FieldList`].
pub enum SpecFieldList {
    Named(Seq<SpecField>),
    Unnamed(Seq<SpecField>),
    Unit,
}

impl DeepView for FieldList {
    type V = SpecFieldList;

    open spec fn deep_view(&self) -> SpecFieldList {
        match self {
            FieldList::Named(fields) => SpecFieldList::Named(fields.deep_view()),
            FieldList::Unnamed(fields) => SpecFieldList::Unnamed(fields.deep_view()),
            FieldList::Unit => SpecFieldList::Unit,
        }
    }
}

/// One declared enum variant.
#[derive(Debug, PartialEq, Eq)]
pub struct Variant {
    /// The attributes on the variant itself.
    pub attrs: Vec<Attr>,
    /// The variant's fields.
    pub fields: FieldList,
    /// The span of the whole variant.
    pub span: usize,
}

/// Spec mirror of [`Variant`].
pub struct SpecVariant {
    pub attrs: Seq<SpecAttr>,
    pub fields: SpecFieldList,
    pub span: usize,
}

impl DeepView for Variant {
    type V = SpecVariant;

    open spec fn deep_view(&self) -> SpecVariant {
        SpecVariant {
            attrs: self.attrs.deep_view(),
            fields: self.fields.deep_view(),
            span: self.span,
        }
    }
}

/// The body of a declaration.
#[derive(Debug, PartialEq, Eq)]
pub enum Data {
    /// A struct with its field list.
    Struct(FieldList),
    /// An enum with its variants.
    Enum(Vec<Variant>),
    /// A union with its (named) fields.
    Union(Vec<Field>),
}

/// Spec mirror of [`Data`].
pub enum SpecData {
    Struct(SpecFieldList),
    Enum(Seq<SpecVariant>),
    Union(Seq<SpecField>),
}

impl DeepView for Data {
    type V = SpecData;

    open spec fn deep_view(&self) -> SpecData {
        match self {
            Data::Struct(fields) => SpecData::Struct(fields.deep_view()),
            Data::Enum(variants) => SpecData::Enum(variants.deep_view()),
            Data::Union(fields) => SpecData::Union(fields.deep_view()),
        }
    }
}

/// One whole declaration, as handed to the engine.
#[derive(Debug, PartialEq, Eq)]
pub struct TypeDecl {
    /// The declared type's name.
    pub ident: String,
    /// Its visibility, as opaque token text.
    pub vis: String,
    /// The attributes on the item itself.
    pub attrs: Vec<Attr>,
    /// Its generic parameter list.
    pub generics: Generics,
    /// Its body.
    pub data: Data,
}

/// Spec mirror of [`TypeDecl`].
pub struct SpecTypeDecl {
    pub ident: Seq<char>,
    pub vis: Seq<char>,
    pub attrs: Seq<SpecAttr>,
    pub generics: SpecGenerics,
    pub data: SpecData,
}

impl DeepView for TypeDecl {
    type V = SpecTypeDecl;

    open spec fn deep_view(&self) -> SpecTypeDecl {
        SpecTypeDecl {
            ident: self.ident.deep_view(),
            vis: self.vis.deep_view(),
            attrs: self.attrs.deep_view(),
            generics: self.generics.deep_view(),
            data: self.data.deep_view(),
        }
    }
}

} // verus!

