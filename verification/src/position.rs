//! Where, inside a declaration, an annotation was found.
//!
//! When a whole declaration is treated as an opaque leaf (enums, unions,
//! and structs explicitly marked leaf), `daft` annotations below the item
//! itself are meaningless. A walk over the declaration tracks its current
//! position with this state machine so that each misplaced annotation can
//! be reported with a message naming exactly where it sat.

use vstd::prelude::*;

verus! {

/// The position of the walk inside a declaration.
#[derive(Clone, Copy, Debug, PartialEq, Eq, Structural)]
pub enum AttrPosition {
    /// Catch-all in case the walk meets a shape it does not expect.
    General,
    /// Directly on a struct marked leaf.
    LeafStruct,
    /// On a field of a struct marked leaf.
    LeafStructField,
    /// Directly on an enum.
    Enum,
    /// On an enum variant.
    Variant,
    /// On a field of an enum variant.
    VariantField,
    /// Directly on a union.
    Union,
    /// On a union field.
    UnionField,
}

impl AttrPosition {
    /// The position after stepping into a variant.
    pub open spec fn spec_visit_variant(self) -> AttrPosition {
        match self {
            AttrPosition::Enum => AttrPosition::Variant,
            _ => AttrPosition::General,
        }
    }

    /// The position after stepping into a field.
    pub open spec fn spec_visit_field(self) -> AttrPosition {
        match self {
            AttrPosition::LeafStruct => AttrPosition::LeafStructField,
            AttrPosition::Variant => AttrPosition::VariantField,
            AttrPosition::Union => AttrPosition::UnionField,
            _ => AttrPosition::General,
        }
    }

    /// Step into a variant: only an enum has variants; anywhere else the
    /// walk falls back to the catch-all position.
    pub fn visit_variant(self) -> (pos: Self)
        ensures
            pos == self.spec_visit_variant(),
    {
        match self {
            AttrPosition::Enum => AttrPosition::Variant,
            AttrPosition::General
            | AttrPosition::LeafStruct
            | AttrPosition::LeafStructField
            | AttrPosition::Variant
            | AttrPosition::VariantField
            | AttrPosition::Union
            | AttrPosition::UnionField => AttrPosition::General,
        }
    }

    /// Step into a field: a leaf struct, a variant and a union have fields;
    /// anywhere else the walk falls back to the catch-all position.
    pub fn visit_field(self) -> (pos: Self)
        ensures
            pos == self.spec_visit_field(),
    {
        match self {
            AttrPosition::LeafStruct => AttrPosition::LeafStructField,
            AttrPosition::Variant => AttrPosition::VariantField,
            AttrPosition::Union => AttrPosition::UnionField,
            AttrPosition::General
            | AttrPosition::LeafStructField
            | AttrPosition::Enum
            | AttrPosition::VariantField
            | AttrPosition::UnionField => AttrPosition::General,
        }
    }

    /// The text of [`Self::as_purpose_str`].
    pub open spec fn spec_purpose_str(self) -> Seq<char> {
        match self {
            AttrPosition::General => "for this type"@,
            AttrPosition::LeafStruct => "for structs annotated with #[daft(leaf)]"@,
            AttrPosition::LeafStructField => "for fields on structs annotated with #[daft(leaf)]"@,
            AttrPosition::Enum => "for enums"@,
            AttrPosition::Variant => "for enum variants"@,
            AttrPosition::VariantField => "for enum variant fields"@,
            AttrPosition::Union => "for unions"@,
            AttrPosition::UnionField => "for union fields"@,
        }
    }

    /// A prepositional phrase indicating what something applies to,
    /// e.g. "the implementation for enums is always".
    pub fn as_purpose_str(self) -> (text: &'static str)
        ensures
            text@ == self.spec_purpose_str(),
    {
        match self {
            AttrPosition::General => "for this type",
            AttrPosition::LeafStruct => "for structs annotated with #[daft(leaf)]",
            AttrPosition::LeafStructField => "for fields on structs annotated with #[daft(leaf)]",
            AttrPosition::Enum => "for enums",
            AttrPosition::Variant => "for enum variants",
            AttrPosition::VariantField => "for enum variant fields",
            AttrPosition::Union => "for unions",
            AttrPosition::UnionField => "for union fields",
        }
    }

    /// The text of [`Self::as_locative_str`].
    pub open spec fn spec_locative_str(self) -> Seq<char> {
        match self {
            AttrPosition::General => "here"@,
            AttrPosition::LeafStruct => "on structs annotated with #[daft(leaf)]"@,
            AttrPosition::LeafStructField => "on fields of structs annotated with #[daft(leaf)]"@,
            AttrPosition::Enum => "on enums"@,
            AttrPosition::Variant => "on enum variants"@,
            AttrPosition::VariantField => "on enum variant fields"@,
            AttrPosition::Union => "on unions"@,
            AttrPosition::UnionField => "on union fields"@,
        }
    }

    /// A phrase indicating location: "not allowed on enums", and so on.
    pub fn as_locative_str(self) -> (text: &'static str)
        ensures
            text@ == self.spec_locative_str(),
    {
        match self {
            AttrPosition::General => "here",
            AttrPosition::LeafStruct => "on structs annotated with #[daft(leaf)]",
            AttrPosition::LeafStructField => "on fields of structs annotated with #[daft(leaf)]",
            AttrPosition::Enum => "on enums",
            AttrPosition::Variant => "on enum variants",
            AttrPosition::VariantField => "on enum variant fields",
            AttrPosition::Union => "on unions",
            AttrPosition::UnionField => "on union fields",
        }
    }
}

} // verus!
