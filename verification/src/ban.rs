//! The walk that reports misplaced `daft` annotations.
//!
//! When a declaration is diffed as one opaque leaf — every enum and
//! union, and any struct marked leaf — annotations below the item itself
//! have no meaning. This walk steps into variants and fields, tracking
//! its position with [`AttrPosition`], and reports every `daft`
//! annotation it meets with a message naming that position. It has no
//! effect on successful output; it exists purely for precise
//! diagnostics.

use vstd::prelude::*;
use crate::ast::{
    Attr, AttrKind, Data, Field, FieldList, SpecAttr, SpecAttrKind, SpecData, SpecField,
    SpecFieldList, SpecVariant, Variant,
};
use crate::diag::{deep_errs, lemma_deep_errs_push, Error, ErrorKind, SpecError, SpecErrorKind};
use crate::error_store::ErrorStore;
use crate::position::AttrPosition;
use crate::seq_util::{concat_map, lemma_concat_map_snoc};

verus! {

/// The report for one attribute: a `daft` annotation anywhere this walk
/// goes is misplaced; everything else is left alone.
pub open spec fn spec_ban_attr(pos: AttrPosition, attr: SpecAttr) -> Seq<SpecError> {
    match attr.kind {
        SpecAttrKind::Daft(_) => seq![
            SpecError { span: attr.span, kind: SpecErrorKind::NotAllowed(pos) },
        ],
        _ => Seq::empty(),
    }
}

/// The reports for a list of attributes, in order.
pub open spec fn spec_ban_attrs(pos: AttrPosition, attrs: Seq<SpecAttr>) -> Seq<SpecError> {
    concat_map(attrs, |a: SpecAttr| spec_ban_attr(pos, a))
}

/// The reports for one field: its attributes, one position further in.
pub open spec fn spec_ban_field(pos: AttrPosition, field: SpecField) -> Seq<SpecError> {
    spec_ban_attrs(pos.spec_visit_field(), field.attrs)
}

/// The reports for a list of fields, in order.
pub open spec fn spec_ban_fields(pos: AttrPosition, fields: Seq<SpecField>) -> Seq<SpecError> {
    concat_map(fields, |f: SpecField| spec_ban_field(pos, f))
}

/// The reports for a field list of any shape.
pub open spec fn spec_ban_field_list(pos: AttrPosition, fields: SpecFieldList) -> Seq<SpecError> {
    match fields {
        SpecFieldList::Named(fs) => spec_ban_fields(pos, fs),
        SpecFieldList::Unnamed(fs) => spec_ban_fields(pos, fs),
        SpecFieldList::Unit => Seq::empty(),
    }
}

/// The reports for one variant: its own attributes, then its fields,
/// both one position further in.
pub open spec fn spec_ban_variant(pos: AttrPosition, variant: SpecVariant) -> Seq<SpecError> {
    let inner = pos.spec_visit_variant();
    spec_ban_attrs(inner, variant.attrs) + spec_ban_field_list(inner, variant.fields)
}

/// The reports for a list of variants, in order.
pub open spec fn spec_ban_variants(pos: AttrPosition, variants: Seq<SpecVariant>) -> Seq<
    SpecError,
> {
    concat_map(variants, |v: SpecVariant| spec_ban_variant(pos, v))
}

/// The reports for a whole declaration body.
pub open spec fn spec_ban_data(pos: AttrPosition, data: SpecData) -> Seq<SpecError> {
    match data {
        SpecData::Struct(fields) => spec_ban_field_list(pos, fields),
        SpecData::Enum(variants) => spec_ban_variants(pos, variants),
        SpecData::Union(fields) => spec_ban_fields(pos, fields),
    }
}

/// The walk itself: its current position.
pub struct BanDaftAttrsVisitor {
    /// Where the walk currently stands.
    pub position: AttrPosition,
}

impl BanDaftAttrsVisitor {
    /// Report one attribute at the current position.
    pub fn visit_attribute(&self, attr: &Attr, errors: &mut ErrorStore<Error>)
        ensures
            deep_errs(final(errors)@) == deep_errs(old(errors)@) + spec_ban_attr(
                self.position,
                attr.deep_view(),
            ),
    {
        match &attr.kind {
            AttrKind::Daft(_) => {
                let e = Error { span: attr.span, kind: ErrorKind::NotAllowed(self.position) };
                proof {
                    lemma_deep_errs_push(errors@, e);
                    assert(deep_errs(errors@).push(e.deep_view()) =~= deep_errs(errors@)
                        + spec_ban_attr(self.position, attr.deep_view()));
                }
                errors.push(e);
            },
            AttrKind::NonExhaustive => {
                proof {
                    assert(deep_errs(errors@) =~= deep_errs(errors@) + spec_ban_attr(
                        self.position,
                        attr.deep_view(),
                    ));
                }
            },
            AttrKind::Other => {
                proof {
                    assert(deep_errs(errors@) =~= deep_errs(errors@) + spec_ban_attr(
                        self.position,
                        attr.deep_view(),
                    ));
                }
            },
        }
    }

    /// Step into a field and report its attributes.
    pub fn visit_field(&mut self, field: &Field, errors: &mut ErrorStore<Error>)
        ensures
            final(self).position == old(self).position,
            deep_errs(final(errors)@) == deep_errs(old(errors)@) + spec_ban_field(
                old(self).position,
                field.deep_view(),
            ),
    {
        let old_position = self.position;
        self.position = self.position.visit_field();
        let ghost inner = self.position;
        let mut i: usize = 0;
        while i < field.attrs.len()
            invariant
                i <= field.attrs.deep_view().len(),
                field.attrs.deep_view().len() == field.attrs@.len(),
                self.position == inner,
                inner == old(self).position.spec_visit_field(),
                deep_errs(errors@) == deep_errs(old(errors)@) + spec_ban_attrs(
                    inner,
                    field.attrs.deep_view().take(i as int),
                ),
            decreases field.attrs@.len() - i,
        {
            assert(field.attrs[i as int].deep_view() == field.attrs.deep_view()[i as int]);
            self.visit_attribute(&field.attrs[i], errors);
            proof {
                lemma_concat_map_snoc(
                    field.attrs.deep_view().take(i as int),
                    |a: SpecAttr| spec_ban_attr(inner, a),
                    field.attrs.deep_view()[i as int],
                );
                assert(field.attrs.deep_view().take(i as int).push(
                    field.attrs.deep_view()[i as int],
                ) =~= field.attrs.deep_view().take(i + 1 as int));
                assert(deep_errs(errors@) =~= deep_errs(old(errors)@) + spec_ban_attrs(
                    inner,
                    field.attrs.deep_view().take(i + 1 as int),
                ));
            }
            i += 1;
        }
        proof {
            assert(field.attrs.deep_view().take(field.attrs@.len() as int)
                =~= field.attrs.deep_view());
        }
        self.position = old_position;
    }

    /// Step into a variant and report its attributes and its fields.
    pub fn visit_variant(&mut self, variant: &Variant, errors: &mut ErrorStore<Error>)
        ensures
            final(self).position == old(self).position,
            deep_errs(final(errors)@) == deep_errs(old(errors)@) + spec_ban_variant(
                old(self).position,
                variant.deep_view(),
            ),
    {
        let old_position = self.position;
        self.position = self.position.visit_variant();
        let ghost inner = self.position;
        let mut i: usize = 0;
        while i < variant.attrs.len()
            invariant
                i <= variant.attrs.deep_view().len(),
                variant.attrs.deep_view().len() == variant.attrs@.len(),
                self.position == inner,
                inner == old(self).position.spec_visit_variant(),
                deep_errs(errors@) == deep_errs(old(errors)@) + spec_ban_attrs(
                    inner,
                    variant.attrs.deep_view().take(i as int),
                ),
            decreases variant.attrs@.len() - i,
        {
            assert(variant.attrs[i as int].deep_view() == variant.attrs.deep_view()[i as int]);
            self.visit_attribute(&variant.attrs[i], errors);
            proof {
                lemma_concat_map_snoc(
                    variant.attrs.deep_view().take(i as int),
                    |a: SpecAttr| spec_ban_attr(inner, a),
                    variant.attrs.deep_view()[i as int],
                );
                assert(variant.attrs.deep_view().take(i as int).push(
                    variant.attrs.deep_view()[i as int],
                ) =~= variant.attrs.deep_view().take(i + 1 as int));
                assert(deep_errs(errors@) =~= deep_errs(old(errors)@) + spec_ban_attrs(
                    inner,
                    variant.attrs.deep_view().take(i + 1 as int),
                ));
            }
            i += 1;
        }
        proof {
            assert(variant.attrs.deep_view().take(variant.attrs@.len() as int)
                =~= variant.attrs.deep_view());
        }
        let ghost after_attrs = deep_errs(errors@);
        match &variant.fields {
            FieldList::Named(fs) => {
                self.visit_field_slice(fs, errors);
            },
            FieldList::Unnamed(fs) => {
                self.visit_field_slice(fs, errors);
            },
            FieldList::Unit => {},
        }
        self.position = old_position;
        proof {
            assert(deep_errs(errors@) =~= deep_errs(old(errors)@) + spec_ban_variant(
                old(self).position,
                variant.deep_view(),
            ));
        }
    }

    /// Report every field of a list, in order.
    pub fn visit_field_slice(&mut self, fields: &Vec<Field>, errors: &mut ErrorStore<Error>)
        ensures
            final(self).position == old(self).position,
            deep_errs(final(errors)@) == deep_errs(old(errors)@) + spec_ban_fields(
                old(self).position,
                fields.deep_view(),
            ),
    {
        let ghost pos = self.position;
        let mut i: usize = 0;
        while i < fields.len()
            invariant
                i <= fields.deep_view().len(),
                fields.deep_view().len() == fields@.len(),
                self.position == pos,
                pos == old(self).position,
                deep_errs(errors@) == deep_errs(old(errors)@) + spec_ban_fields(
                    pos,
                    fields.deep_view().take(i as int),
                ),
            decreases fields@.len() - i,
        {
            assert(fields[i as int].deep_view() == fields.deep_view()[i as int]);
            self.visit_field(&fields[i], errors);
            proof {
                lemma_concat_map_snoc(
                    fields.deep_view().take(i as int),
                    |f: SpecField| spec_ban_field(pos, f),
                    fields.deep_view()[i as int],
                );
                assert(fields.deep_view().take(i as int).push(fields.deep_view()[i as int])
                    =~= fields.deep_view().take(i + 1 as int));
                assert(deep_errs(errors@) =~= deep_errs(old(errors)@) + spec_ban_fields(
                    pos,
                    fields.deep_view().take(i + 1 as int),
                ));
            }
            i += 1;
        }
        proof {
            assert(fields.deep_view().take(fields@.len() as int) =~= fields.deep_view());
        }
    }

    /// Walk a whole declaration body.
    pub fn visit_data(&mut self, data: &Data, errors: &mut ErrorStore<Error>)
        ensures
            final(self).position == old(self).position,
            deep_errs(final(errors)@) == deep_errs(old(errors)@) + spec_ban_data(
                old(self).position,
                data.deep_view(),
            ),
    {
        let ghost pos = self.position;
        match data {
            Data::Struct(fields) => {
                match fields {
                    FieldList::Named(fs) => {
                        self.visit_field_slice(fs, errors);
                    },
                    FieldList::Unnamed(fs) => {
                        self.visit_field_slice(fs, errors);
                    },
                    FieldList::Unit => {
                        proof {
                            assert(deep_errs(errors@) =~= deep_errs(errors@) + Seq::<
                                SpecError,
                            >::empty());
                        }
                    },
                }
            },
            Data::Enum(variants) => {
                let mut i: usize = 0;
                while i < variants.len()
                    invariant
                        i <= variants.deep_view().len(),
                        variants.deep_view().len() == variants@.len(),
                        self.position == pos,
                        pos == old(self).position,
                        deep_errs(errors@) == deep_errs(old(errors)@) + spec_ban_variants(
                            pos,
                            variants.deep_view().take(i as int),
                        ),
                    decreases variants@.len() - i,
                {
                    assert(variants[i as int].deep_view() == variants.deep_view()[i as int]);
                    self.visit_variant(&variants[i], errors);
                    proof {
                        lemma_concat_map_snoc(
                            variants.deep_view().take(i as int),
                            |v: SpecVariant| spec_ban_variant(pos, v),
                            variants.deep_view()[i as int],
                        );
                        assert(variants.deep_view().take(i as int).push(
                            variants.deep_view()[i as int],
                        ) =~= variants.deep_view().take(i + 1 as int));
                        assert(deep_errs(errors@) =~= deep_errs(old(errors)@) + spec_ban_variants(
                            pos,
                            variants.deep_view().take(i + 1 as int),
                        ));
                    }
                    i += 1;
                }
                proof {
                    assert(variants.deep_view().take(variants@.len() as int)
                        =~= variants.deep_view());
                }
            },
            Data::Union(fields) => {
                self.visit_field_slice(fields, errors);
            },
        }
    }
}

} // verus!
