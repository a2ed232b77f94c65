//! Synthesizing the generated code for one declaration.
//!
//! For a struct in the default mode this builds the companion type — a
//! mirror of the original minus ignored fields, each retained field's
//! type rewritten to an opaque pair or a recursive diff type — together
//! with its manual `Debug`, `PartialEq` and `Eq` implementations, whose
//! bounds range over the rewritten field types rather than the original
//! ones, and the diffing-trait implementation wiring the original type
//! to the companion. Enums, unions and structs marked leaf instead get
//! a single leaf implementation and a walk that reports every nested
//! `daft` annotation as misplaced.
//!
//! Every stage reports into the shared error store and keeps going;
//! output is withheld exactly where the contracts below say so.

use vstd::prelude::*;
use crate::ast::{
    Attr, AttrKind, Data, Field, FieldList, SpecAttr, SpecAttrKind, SpecData, SpecField,
    SpecFieldList, SpecNestedMeta, SpecTypeDecl, SpecWhereClause, TypeDecl, WhereClause,
    clone_strings,
};
use crate::ban::{spec_ban_data, BanDaftAttrsVisitor};
use crate::config::{
    spec_err, spec_field_parse, FieldConfig, FieldMode, StructConfig, StructMode,
    spec_struct_parse,
};
use crate::diag::{deep_errs, lemma_deep_errs_push, Error, ErrorKind, SpecError, SpecErrorKind};
use crate::error_store::ErrorStore;
use crate::generics::{add_lifetime_to_generics, daft_lifetime, spec_add_lifetime, spec_daft_lifetime};
use crate::output::{
    clone_diff_fields, diff_field_members, diff_field_types, spec_member_of, spec_members,
    BoundTrait, BoundedWhereClause, DebugImpl, DiffField, DiffImpl, DiffStruct, DiffStructDef,
    DiffTy, EqImpl, FieldDiffOp, LeafImpl, Member, OutputCode, PartialEqImpl, ShapeKind,
    SpecBoundedWhereClause, SpecDebugImpl, SpecDiffField, SpecDiffImpl, SpecDiffStruct,
    SpecDiffStructDef, SpecDiffTy, SpecEqImpl, SpecFieldDiffOp, SpecLeafImpl, SpecOutputCode,
    SpecPartialEqImpl, DeriveDiffableOutput,
};
use crate::position::AttrPosition;
use crate::seq_util::{concat_map, lemma_concat_map_snoc};

verus! {

// ------------------------------------------------- one field at a time

/// The diagnostics of parsing one field's configuration.
pub open spec fn spec_diff_field_errs(field: SpecField) -> Seq<SpecError> {
    spec_field_parse(field.attrs).errs
}

/// The retained companion field and its configuration: present exactly
/// when the field's configuration parsed cleanly and did not say
/// ignore. The companion field keeps the original's name, visibility
/// and span, drops its attributes, and rewrites its type according to
/// the mode.
pub open spec fn spec_diff_field_out(field: SpecField) -> Option<(SpecDiffField, FieldConfig)> {
    let st = spec_field_parse(field.attrs);
    if st.errs.len() > 0 {
        None
    } else if st.mode == FieldMode::Ignore {
        None
    } else {
        Some(
            (
                SpecDiffField {
                    name: field.name,
                    vis: field.vis,
                    ty: if st.mode == FieldMode::Leaf {
                        SpecDiffTy::Leaf(field.ty)
                    } else {
                        SpecDiffTy::Recurse(field.ty)
                    },
                    span: field.span,
                },
                FieldConfig { mode: st.mode },
            ),
        )
    }
}

/// The retained companion fields of a field list, with their
/// configurations, in field order.
pub open spec fn spec_retained(fields: Seq<SpecField>) -> Seq<(SpecDiffField, FieldConfig)> {
    concat_map(
        fields,
        |f: SpecField|
            match spec_diff_field_out(f) {
                Some(pair) => seq![pair],
                None => Seq::empty(),
            },
    )
}

/// The diagnostics of parsing every field's configuration, in order.
pub open spec fn spec_fields_errs(fields: Seq<SpecField>) -> Seq<SpecError> {
    concat_map(fields, |f: SpecField| spec_diff_field_errs(f))
}

/// The fields of a field list; a unit list has none.
pub open spec fn spec_field_list_fields(fields: SpecFieldList) -> Seq<SpecField> {
    match fields {
        SpecFieldList::Named(fs) => fs,
        SpecFieldList::Unnamed(fs) => fs,
        SpecFieldList::Unit => Seq::empty(),
    }
}

/// The shape of a field list.
pub open spec fn spec_field_list_shape(fields: SpecFieldList) -> ShapeKind {
    match fields {
        SpecFieldList::Named(_) => ShapeKind::Named,
        SpecFieldList::Unnamed(_) => ShapeKind::Unnamed,
        SpecFieldList::Unit => ShapeKind::Unit,
    }
}

/// The predicates of an optional `where` clause.
pub open spec fn spec_base_preds(clause: Option<SpecWhereClause>) -> Seq<Seq<char>> {
    match clause {
        Some(w) => w.predicates,
        None => Seq::empty(),
    }
}

/// The fields of the companion type, and the `where` clause they were
/// built under. This also keeps each retained field's configuration,
/// which the diffing implementation needs to choose its operations.
pub struct DiffFields {
    /// The retained companion fields, in field order.
    pub fields: Vec<DiffField>,
    /// One configuration per retained field.
    pub field_configs: Vec<FieldConfig>,
    /// The base `where`-clause predicates for the companion type.
    pub where_clause: Vec<String>,
    /// The shape of the original field list.
    pub shape: ShapeKind,
}

impl DiffFields {
    /// Build the companion field for one original field.
    ///
    /// The configuration's diagnostics are appended to `errors`. The
    /// field comes back exactly when its configuration parsed cleanly
    /// and did not say ignore; a field with a configuration error is
    /// omitted here and the diagnostics speak for it.
    pub fn diff_field(field: &Field, errors: &mut ErrorStore<Error>) -> (out: Option<
        (DiffField, FieldConfig),
    >)
        ensures
            deep_errs(final(errors)@) == deep_errs(old(errors)@) + spec_diff_field_errs(
                field.deep_view(),
            ),
            match out {
                Some(pair) => spec_diff_field_out(field.deep_view()) == Some(
                    (pair.0.deep_view(), pair.1),
                ),
                None => spec_diff_field_out(field.deep_view()) is None,
            },
    {
        let config = match FieldConfig::parse_from(&field.attrs, errors) {
            Some(config) => config,
            None => {
                return None;
            },
        };
        if config.mode == FieldMode::Ignore {
            return None;
        }
        let name = match &field.name {
            Some(n) => Some(n.clone()),
            None => None,
        };
        let ty = if config.mode == FieldMode::Leaf {
            DiffTy::Leaf(field.ty.clone())
        } else {
            DiffTy::Recurse(field.ty.clone())
        };
        Some((DiffField { name, vis: field.vis.clone(), ty, span: field.span }, config))
    }

    /// Build the companion fields for a whole field list.
    ///
    /// Every field's diagnostics are appended, in field order. The
    /// result comes back exactly when no field had a configuration
    /// error; ignored fields are simply absent from it.
    pub fn new(
        fields: &FieldList,
        where_clause: &Option<WhereClause>,
        errors: &mut ErrorStore<Error>,
    ) -> (out: Option<DiffFields>)
        ensures
            deep_errs(final(errors)@) == deep_errs(old(errors)@) + spec_fields_errs(
                spec_field_list_fields(fields.deep_view()),
            ),
            match out {
                Some(df) => {
                    let fseq = spec_field_list_fields(fields.deep_view());
                    &&& spec_fields_errs(fseq).len() == 0
                    &&& df.fields.deep_view() == spec_retained(fseq).map_values(
                        |p: (SpecDiffField, FieldConfig)| p.0,
                    )
                    &&& df.field_configs@ == spec_retained(fseq).map_values(
                        |p: (SpecDiffField, FieldConfig)| p.1,
                    )
                    &&& df.where_clause.deep_view() == spec_base_preds(where_clause.deep_view())
                    &&& df.shape == spec_field_list_shape(fields.deep_view())
                },
                None => spec_fields_errs(spec_field_list_fields(fields.deep_view())).len() > 0,
            },
    {
        let mark = errors.mark();
        let (out_fields, out_configs, shape) = match fields {
            FieldList::Named(fs) => {
                proof {
                    assert(spec_field_list_fields(fields.deep_view()) == fs.deep_view());
                }
                let (a, b) = Self::collect_fields(fs, errors);
                (a, b, ShapeKind::Named)
            },
            FieldList::Unnamed(fs) => {
                proof {
                    assert(spec_field_list_fields(fields.deep_view()) == fs.deep_view());
                }
                let (a, b) = Self::collect_fields(fs, errors);
                (a, b, ShapeKind::Unnamed)
            },
            FieldList::Unit => {
                let empty_fields: Vec<DiffField> = Vec::new();
                let empty_configs: Vec<FieldConfig> = Vec::new();
                proof {
                    assert(deep_errs(errors@) =~= deep_errs(errors@) + spec_fields_errs(
                        spec_field_list_fields(fields.deep_view()),
                    ));
                    assert(empty_fields.deep_view() =~= spec_retained(
                        spec_field_list_fields(fields.deep_view()),
                    ).map_values(|p: (SpecDiffField, FieldConfig)| p.0));
                    assert(empty_configs@ =~= spec_retained(
                        spec_field_list_fields(fields.deep_view()),
                    ).map_values(|p: (SpecDiffField, FieldConfig)| p.1));
                }
                (empty_fields, empty_configs, ShapeKind::Unit)
            },
        };
        let base = match where_clause {
            Some(w) => clone_strings(&w.predicates),
            None => {
                let empty: Vec<String> = Vec::new();
                proof {
                    assert(empty.deep_view() =~= spec_base_preds(where_clause.deep_view()));
                }
                empty
            },
        };
        if errors.has_errors_since(mark) {
            None
        } else {
            proof {
                let fseq = spec_field_list_fields(fields.deep_view());
                assert(deep_errs(errors@).len() == deep_errs(old(errors)@).len()
                    + spec_fields_errs(fseq).len());
                assert(spec_fields_errs(fseq).len() == 0);
                assert(out_fields.deep_view() == spec_retained(fseq).map_values(
                    |p: (SpecDiffField, FieldConfig)| p.0,
                ));
                assert(out_configs@ == spec_retained(fseq).map_values(
                    |p: (SpecDiffField, FieldConfig)| p.1,
                ));
                assert(base.deep_view() == spec_base_preds(where_clause.deep_view()));
                assert(shape == spec_field_list_shape(fields.deep_view()));
            }
            Some(DiffFields { fields: out_fields, field_configs: out_configs, where_clause: base, shape })
        }
    }

    /// Build the companion fields for a list of original fields.
    fn collect_fields(fields: &Vec<Field>, errors: &mut ErrorStore<Error>) -> (out: (
        Vec<DiffField>,
        Vec<FieldConfig>,
    ))
        ensures
            deep_errs(final(errors)@) == deep_errs(old(errors)@) + spec_fields_errs(
                fields.deep_view(),
            ),
            out.0.deep_view() == spec_retained(fields.deep_view()).map_values(
                |p: (SpecDiffField, FieldConfig)| p.0,
            ),
            out.1@ == spec_retained(fields.deep_view()).map_values(
                |p: (SpecDiffField, FieldConfig)| p.1,
            ),
    {
        let mut out_fields: Vec<DiffField> = Vec::new();
        let mut out_configs: Vec<FieldConfig> = Vec::new();
        let mut i: usize = 0;
        while i < fields.len()
            invariant
                i <= fields.deep_view().len(),
                fields.deep_view().len() == fields@.len(),
                deep_errs(errors@) == deep_errs(old(errors)@) + spec_fields_errs(
                    fields.deep_view().take(i as int),
                ),
                out_fields@.len() == spec_retained(fields.deep_view().take(i as int)).len(),
                out_configs@.len() == out_fields@.len(),
                forall|k: int|
                    0 <= k < out_fields@.len() ==> #[trigger] out_fields@[k].deep_view()
                        == spec_retained(fields.deep_view().take(i as int))[k].0,
                forall|k: int|
                    0 <= k < out_configs@.len() ==> #[trigger] out_configs@[k] == spec_retained(
                        fields.deep_view().take(i as int),
                    )[k].1,
            decreases fields@.len() - i,
        {
            let ghost taken = fields.deep_view().take(i as int);
            let ghost fv = fields.deep_view()[i as int];
            assert(fields[i as int].deep_view() == fields.deep_view()[i as int]);
            let picked = Self::diff_field(&fields[i], errors);
            proof {
                lemma_concat_map_snoc(taken, |f: SpecField| spec_diff_field_errs(f), fv);
                lemma_concat_map_snoc(
                    taken,
                    |f: SpecField|
                        match spec_diff_field_out(f) {
                            Some(pair) => seq![pair],
                            None => Seq::empty(),
                        },
                    fv,
                );
                assert(taken.push(fv) =~= fields.deep_view().take(i + 1 as int));
                assert(deep_errs(errors@) =~= deep_errs(old(errors)@) + spec_fields_errs(
                    fields.deep_view().take(i + 1 as int),
                ));
            }
            match picked {
                Some(pair) => {
                    let (df, config) = pair;
                    proof {
                        assert(spec_retained(taken.push(fv)) =~= spec_retained(taken).push(
                            spec_diff_field_out(fv).unwrap(),
                        ));
                    }
                    out_fields.push(df);
                    out_configs.push(config);
                },
                None => {
                    proof {
                        assert(spec_retained(taken.push(fv)) =~= spec_retained(taken));
                    }
                },
            }
            i += 1;
        }
        proof {
            assert(fields.deep_view().take(fields@.len() as int) =~= fields.deep_view());
            assert forall|k: int| 0 <= k < out_fields@.len() implies out_fields.deep_view()[k]
                == spec_retained(fields.deep_view()).map_values(
                |p: (SpecDiffField, FieldConfig)| p.0,
            )[k] by {
                assert(out_fields@[k].deep_view() == spec_retained(fields.deep_view())[k].0);
            }
            assert(out_fields.deep_view() =~= spec_retained(fields.deep_view()).map_values(
                |p: (SpecDiffField, FieldConfig)| p.0,
            ));
            assert forall|k: int| 0 <= k < out_configs@.len() implies out_configs@[k]
                == spec_retained(fields.deep_view()).map_values(
                |p: (SpecDiffField, FieldConfig)| p.1,
            )[k] by {
                assert(out_configs@[k] == spec_retained(fields.deep_view())[k].1);
            }
            assert(out_configs@ =~= spec_retained(fields.deep_view()).map_values(
                |p: (SpecDiffField, FieldConfig)| p.1,
            ));
        }
        (out_fields, out_configs)
    }

    /// The retained companion field types, in order.
    pub fn types(&self) -> (tys: Vec<DiffTy>)
        ensures
            tys.deep_view() == self.fields.deep_view().map_values(|f: SpecDiffField| f.ty),
    {
        diff_field_types(&self.fields)
    }

    /// The base `where` clause extended with one `ty: bound` predicate
    /// for every retained companion field type.
    pub fn where_clause_with_trait_bound(&self, bound: BoundTrait) -> (clause: BoundedWhereClause)
        ensures
            clause.deep_view() == (SpecBoundedWhereClause {
                base: self.where_clause.deep_view(),
                bound,
                tys: self.fields.deep_view().map_values(|f: SpecDiffField| f.ty),
            }),
    {
        BoundedWhereClause {
            base: clone_strings(&self.where_clause),
            bound,
            tys: self.types(),
        }
    }
}

// --------------------------------------------------- field diff wiring

/// The operation for each retained field: a leaf-mode field is wrapped
/// as an opaque pair, any other retained field delegates to its own
/// diffing implementation. Members are the retained fields' names, or
/// their positions in the companion type.
pub open spec fn spec_field_diffs(
    fields: Seq<SpecDiffField>,
    configs: Seq<FieldConfig>,
) -> Seq<SpecFieldDiffOp> {
    Seq::new(
        fields.len(),
        |i: int|
            if configs[i].mode == FieldMode::Leaf {
                SpecFieldDiffOp::LeafWrap(spec_member_of(fields[i], i))
            } else {
                SpecFieldDiffOp::RecurseDiff(spec_member_of(fields[i], i))
            },
    )
}

/// Generate the operation that fills each retained companion field.
pub fn generate_field_diffs(
    fields: &Vec<DiffField>,
    field_configs: &Vec<FieldConfig>,
) -> (ops: Vec<FieldDiffOp>)
    requires
        fields@.len() == field_configs@.len(),
    ensures
        ops.deep_view() == spec_field_diffs(fields.deep_view(), field_configs@),
{
    let mut ops: Vec<FieldDiffOp> = Vec::new();
    let mut i: usize = 0;
    while i < fields.len()
        invariant
            i <= fields@.len(),
            fields@.len() == field_configs@.len(),
            ops@.len() == i,
            forall|k: int|
                0 <= k < i ==> #[trigger] ops@[k].deep_view() == spec_field_diffs(
                    fields.deep_view(),
                    field_configs@,
                )[k],
        decreases fields@.len() - i,
    {
        let member = match &fields[i].name {
            Some(name) => Member::Named(name.clone()),
            None => Member::Position(i),
        };
        let op = if field_configs[i].mode == FieldMode::Leaf {
            FieldDiffOp::LeafWrap(member)
        } else {
            FieldDiffOp::RecurseDiff(member)
        };
        proof {
            assert(fields@[i as int].deep_view() == fields.deep_view()[i as int]);
        }
        ops.push(op);
        i += 1;
    }
    proof {
        assert forall|k: int| 0 <= k < ops@.len() implies ops.deep_view()[k] == spec_field_diffs(
            fields.deep_view(),
            field_configs@,
        )[k] by {
            assert(ops@[k].deep_view() == spec_field_diffs(fields.deep_view(), field_configs@)[k]);
        }
        assert(ops.deep_view() =~= spec_field_diffs(fields.deep_view(), field_configs@));
    }
    ops
}

/// Omission correctness: a field configured `ignore` contributes
/// nothing to the retained sequence — the companion type's fields are
/// exactly what they would be had the field not been declared at all.
/// The companion's field list, its printed and compared members, the
/// bounded `where`-clause types and the diffing implementation's field
/// operations are all functions of that retained sequence, so the
/// ignored field appears in none of them.
pub proof fn lemma_omission_correctness(fields: Seq<SpecField>, i: int)
    requires
        0 <= i < fields.len(),
        spec_field_parse(fields[i].attrs).errs.len() == 0,
        spec_field_parse(fields[i].attrs).mode == FieldMode::Ignore,
    ensures
        spec_retained(fields) == spec_retained(fields.take(i) + fields.skip(i + 1)),
{
    let picker = |f: SpecField|
        match spec_diff_field_out(f) {
            Some(pair) => seq![pair],
            None => Seq::<(SpecDiffField, FieldConfig)>::empty(),
        };
    let middle = seq![fields[i]];
    assert(fields =~= fields.take(i) + (middle + fields.skip(i + 1)));
    crate::seq_util::lemma_concat_map_append(fields.take(i), middle + fields.skip(i + 1), picker);
    crate::seq_util::lemma_concat_map_append(middle, fields.skip(i + 1), picker);
    crate::seq_util::lemma_concat_map_append(fields.take(i), fields.skip(i + 1), picker);
    reveal_with_fuel(concat_map, 2);
    assert(middle.drop_first() =~= Seq::<SpecField>::empty());
    assert(picker(fields[i]) =~= Seq::<(SpecDiffField, FieldConfig)>::empty());
    assert(concat_map(middle, picker) =~= Seq::<(SpecDiffField, FieldConfig)>::empty());
    assert(concat_map(fields, picker) =~= concat_map(fields.take(i), picker) + concat_map(
        fields.skip(i + 1),
        picker,
    ));
}

// -------------------------------------------------- leaf implementations

/// The report for one name of a `daft` annotation on an item diffed as
/// a leaf: `leaf` is accepted only directly on a struct marked leaf and
/// is redundant anywhere else; any other name is not allowed at all.
pub open spec fn spec_leaf_meta_errs(pos: AttrPosition, meta: SpecNestedMeta) -> Seq<SpecError> {
    if meta.name == "leaf"@ {
        if pos == AttrPosition::LeafStruct {
            Seq::empty()
        } else {
            seq![spec_err(meta.span, SpecErrorKind::Unnecessary(pos))]
        }
    } else {
        seq![spec_err(meta.span, SpecErrorKind::NotAllowed(pos))]
    }
}

/// The reports for one attribute on an item diffed as a leaf.
pub open spec fn spec_leaf_attr_errs(pos: AttrPosition, attr: SpecAttr) -> Seq<SpecError> {
    match attr.kind {
        SpecAttrKind::Daft(d) => concat_map(d.metas, |m: SpecNestedMeta| spec_leaf_meta_errs(pos, m))
            + match d.issue {
            Some(issue) => seq![spec_err(issue.span, SpecErrorKind::Malformed(issue.message))],
            None => Seq::empty(),
        },
        SpecAttrKind::NonExhaustive => Seq::empty(),
        SpecAttrKind::Other => Seq::empty(),
    }
}

/// The reports for all attributes on an item diffed as a leaf.
pub open spec fn spec_leaf_item_errs(pos: AttrPosition, attrs: Seq<SpecAttr>) -> Seq<SpecError> {
    concat_map(attrs, |a: SpecAttr| spec_leaf_attr_errs(pos, a))
}

/// Everything a leaf implementation reports: the item's own annotations
/// first, then every misplaced annotation below the item.
pub open spec fn spec_make_leaf_errs(pos: AttrPosition, decl: SpecTypeDecl) -> Seq<SpecError> {
    spec_leaf_item_errs(pos, decl.attrs) + spec_ban_data(pos, decl.data)
}

/// The leaf implementation for a declaration: its name and its own
/// generics, unaugmented.
pub open spec fn spec_leaf_impl(decl: SpecTypeDecl) -> SpecLeafImpl {
    SpecLeafImpl { ident: decl.ident, generics: decl.generics }
}

/// Build the leaf implementation for a declaration diffed as one
/// opaque pair, reporting every annotation that has no meaning on it.
///
/// The implementation is built even when reports accompany it, so that
/// downstream tooling still sees the trait implemented.
pub fn make_leaf(input: &TypeDecl, position: AttrPosition, errors: &mut ErrorStore<Error>) -> (out:
    LeafImpl)
    ensures
        deep_errs(final(errors)@) == deep_errs(old(errors)@) + spec_make_leaf_errs(
            position,
            input.deep_view(),
        ),
        out.deep_view() == spec_leaf_impl(input.deep_view()),
{
    let leaf_name = String::from_str("leaf");
    let mut idx: usize = 0;
    while idx < input.attrs.len()
        invariant
            idx <= input.attrs.deep_view().len(),
            input.attrs.deep_view().len() == input.attrs@.len(),
            leaf_name@ == "leaf"@,
            deep_errs(errors@) == deep_errs(old(errors)@) + spec_leaf_item_errs(
                position,
                input.attrs.deep_view().take(idx as int),
            ),
        decreases input.attrs@.len() - idx,
    {
        let ghost taken = input.attrs.deep_view().take(idx as int);
        let attr = &input.attrs[idx];
        assert(attr.deep_view() == input.attrs.deep_view()[idx as int]);
        match &attr.kind {
            AttrKind::Daft(d) => {
                let ghost base = deep_errs(errors@);
                let mut j: usize = 0;
                while j < d.metas.len()
                    invariant
                        j <= d.metas.deep_view().len(),
                        d.metas.deep_view().len() == d.metas@.len(),
                        leaf_name@ == "leaf"@,
                        deep_errs(errors@) == base + concat_map(
                            d.metas.deep_view().take(j as int),
                            |m: SpecNestedMeta| spec_leaf_meta_errs(position, m),
                        ),
                    decreases d.metas@.len() - j,
                {
                    let m = &d.metas[j];
                    assert(m.deep_view() == d.metas.deep_view()[j as int]);
                    if m.name == leaf_name {
                        if position == AttrPosition::LeafStruct {
                            // Accepted here: the marker belongs on this item.
                        } else {
                            let e = Error {
                                span: m.span,
                                kind: ErrorKind::Unnecessary(position),
                            };
                            proof {
                                lemma_deep_errs_push(errors@, e);
                            }
                            errors.push(e);
                        }
                    } else {
                        let e = Error { span: m.span, kind: ErrorKind::NotAllowed(position) };
                        proof {
                            lemma_deep_errs_push(errors@, e);
                        }
                        errors.push(e);
                    }
                    proof {
                        lemma_concat_map_snoc(
                            d.metas.deep_view().take(j as int),
                            |m2: SpecNestedMeta| spec_leaf_meta_errs(position, m2),
                            m.deep_view(),
                        );
                        assert(d.metas.deep_view().take(j as int).push(m.deep_view())
                            =~= d.metas.deep_view().take(j + 1 as int));
                        assert(deep_errs(errors@) =~= base + concat_map(
                            d.metas.deep_view().take(j + 1 as int),
                            |m2: SpecNestedMeta| spec_leaf_meta_errs(position, m2),
                        ));
                    }
                    j += 1;
                }
                proof {
                    assert(d.metas.deep_view().take(d.metas@.len() as int)
                        =~= d.metas.deep_view());
                }
                match &d.issue {
                    Some(issue) => {
                        let e = Error {
                            span: issue.span,
                            kind: ErrorKind::Malformed(issue.message.clone()),
                        };
                        proof {
                            lemma_deep_errs_push(errors@, e);
                            assert(deep_errs(errors@).push(e.deep_view()) =~= base
                                + spec_leaf_attr_errs(position, attr.deep_view()));
                        }
                        errors.push(e);
                    },
                    None => {
                        proof {
                            assert(deep_errs(errors@) =~= base + spec_leaf_attr_errs(
                                position,
                                attr.deep_view(),
                            ));
                        }
                    },
                }
            },
            AttrKind::NonExhaustive => {},
            AttrKind::Other => {},
        }
        proof {
            lemma_concat_map_snoc(
                taken,
                |a: SpecAttr| spec_leaf_attr_errs(position, a),
                attr.deep_view(),
            );
            assert(taken.push(attr.deep_view()) =~= input.attrs.deep_view().take(idx + 1 as int));
            assert(deep_errs(errors@) =~= deep_errs(old(errors)@) + spec_leaf_item_errs(
                position,
                input.attrs.deep_view().take(idx + 1 as int),
            ));
        }
        idx += 1;
    }
    proof {
        assert(input.attrs.deep_view().take(input.attrs@.len() as int)
            =~= input.attrs.deep_view());
    }
    let mut visitor = BanDaftAttrsVisitor { position };
    visitor.visit_data(&input.data, errors);
    proof {
        assert(deep_errs(errors@) =~= deep_errs(old(errors)@) + spec_make_leaf_errs(
            position,
            input.deep_view(),
        ));
    }
    LeafImpl { ident: input.ident.clone(), generics: input.generics.clone() }
}

// ------------------------------------------------------ companion type

/// Whether the declaration carries the non-exhaustive marker.
pub open spec fn spec_non_exhaustive(attrs: Seq<SpecAttr>) -> bool {
    exists|i: int| 0 <= i < attrs.len() && (#[trigger] attrs[i].kind) is NonExhaustive
}

/// Look for the non-exhaustive marker among the item's attributes.
pub fn has_non_exhaustive(attrs: &Vec<Attr>) -> (found: bool)
    ensures
        found == spec_non_exhaustive(attrs.deep_view()),
{
    let mut i: usize = 0;
    while i < attrs.len()
        invariant
            i <= attrs.deep_view().len(),
            attrs.deep_view().len() == attrs@.len(),
            forall|k: int| 0 <= k < i ==> !((#[trigger] attrs.deep_view()[k].kind) is NonExhaustive),
        decreases attrs@.len() - i,
    {
        assert(attrs[i as int].deep_view() == attrs.deep_view()[i as int]);
        match &attrs[i].kind {
            AttrKind::NonExhaustive => {
                proof {
                    assert(attrs.deep_view()[i as int].kind is NonExhaustive);
                }
                return true;
            },
            AttrKind::Daft(_) => {},
            AttrKind::Other => {},
        }
        i += 1;
    }
    false
}

/// The retained companion fields of a field list, alone.
pub open spec fn spec_retained_fields(fl: SpecFieldList) -> Seq<SpecDiffField> {
    spec_retained(spec_field_list_fields(fl)).map_values(|p: (SpecDiffField, FieldConfig)| p.0)
}

/// The retained fields' configurations, alone.
pub open spec fn spec_retained_configs(fl: SpecFieldList) -> Seq<FieldConfig> {
    spec_retained(spec_field_list_fields(fl)).map_values(|p: (SpecDiffField, FieldConfig)| p.1)
}

/// The whole companion plan for a struct in the default mode: the
/// declaration of the companion type and its three helper
/// implementations, all over the augmented generics, with every helper
/// bound ranging over the retained companion field types only.
pub open spec fn spec_diff_struct(decl: SpecTypeDecl, fl: SpecFieldList) -> SpecDiffStruct {
    let aug = spec_add_lifetime(decl.generics, spec_daft_lifetime());
    let retained = spec_retained_fields(fl);
    let base = spec_base_preds(decl.generics.where_clause);
    let shape = spec_field_list_shape(fl);
    let ne = spec_non_exhaustive(decl.attrs);
    SpecDiffStruct {
        def: SpecDiffStructDef {
            ident: decl.ident,
            vis: decl.vis,
            non_exhaustive: ne,
            generics: aug,
            shape,
            fields: retained,
        },
        debug_impl: SpecDebugImpl {
            ident: decl.ident,
            generics: aug,
            where_clause: SpecBoundedWhereClause {
                base,
                bound: BoundTrait::FmtDebug,
                tys: retained.map_values(|f: SpecDiffField| f.ty),
            },
            members: spec_members(retained),
            shape,
            finish_non_exhaustive: ne,
        },
        partial_eq_impl: SpecPartialEqImpl {
            ident: decl.ident,
            generics: aug,
            where_clause: SpecBoundedWhereClause {
                base,
                bound: BoundTrait::CmpPartialEq,
                tys: retained.map_values(|f: SpecDiffField| f.ty),
            },
            members: spec_members(retained),
        },
        eq_impl: SpecEqImpl {
            ident: decl.ident,
            generics: aug,
            where_clause: SpecBoundedWhereClause {
                base,
                bound: BoundTrait::CmpEq,
                tys: retained.map_values(|f: SpecDiffField| f.ty),
            },
        },
    }
}

/// Build the companion type and its helper implementations.
///
/// Every field's configuration diagnostics are appended, in field
/// order; the plan comes back exactly when no field had a
/// configuration error.
pub fn make_diff_struct(
    input: &TypeDecl,
    fields: &FieldList,
    errors: &mut ErrorStore<Error>,
) -> (out: Option<(DiffStruct, DiffFields)>)
    ensures
        deep_errs(final(errors)@) == deep_errs(old(errors)@) + spec_fields_errs(
            spec_field_list_fields(fields.deep_view()),
        ),
        match out {
            Some(pair) => {
                &&& spec_fields_errs(spec_field_list_fields(fields.deep_view())).len() == 0
                &&& pair.0.deep_view() == spec_diff_struct(input.deep_view(), fields.deep_view())
                &&& pair.1.fields.deep_view() == spec_retained_fields(fields.deep_view())
                &&& pair.1.field_configs@ == spec_retained_configs(fields.deep_view())
                &&& pair.1.fields@.len() == pair.1.field_configs@.len()
            },
            None => spec_fields_errs(spec_field_list_fields(fields.deep_view())).len() > 0,
        },
{
    let non_exhaustive = has_non_exhaustive(&input.attrs);
    let daft_lt = daft_lifetime();
    let new_generics = add_lifetime_to_generics(&input.generics, &daft_lt);
    let df = match DiffFields::new(fields, &new_generics.where_clause, errors) {
        Some(df) => df,
        None => {
            return None;
        },
    };
    let def = DiffStructDef {
        ident: input.ident.clone(),
        vis: input.vis.clone(),
        non_exhaustive,
        generics: new_generics.clone(),
        shape: df.shape,
        fields: clone_diff_fields(&df.fields),
    };
    let debug_impl = DebugImpl {
        ident: input.ident.clone(),
        generics: new_generics.clone(),
        where_clause: df.where_clause_with_trait_bound(BoundTrait::FmtDebug),
        members: diff_field_members(&df.fields),
        shape: df.shape,
        finish_non_exhaustive: non_exhaustive,
    };
    let partial_eq_impl = PartialEqImpl {
        ident: input.ident.clone(),
        generics: new_generics.clone(),
        where_clause: df.where_clause_with_trait_bound(BoundTrait::CmpPartialEq),
        members: diff_field_members(&df.fields),
    };
    let eq_impl = EqImpl {
        ident: input.ident.clone(),
        generics: new_generics,
        where_clause: df.where_clause_with_trait_bound(BoundTrait::CmpEq),
    };
    proof {
        assert(df.fields@.len() == df.field_configs@.len());
    }
    Some((DiffStruct { def, debug_impl, partial_eq_impl, eq_impl }, df))
}

// -------------------------------------------------------- trait impl

/// The diffing-trait implementation for a struct in the default mode.
pub open spec fn spec_diff_impl(decl: SpecTypeDecl, fl: SpecFieldList) -> SpecDiffImpl {
    SpecDiffImpl {
        ident: decl.ident,
        generics: decl.generics,
        new_generics: spec_add_lifetime(decl.generics, spec_daft_lifetime()),
        field_diffs: spec_field_diffs(spec_retained_fields(fl), spec_retained_configs(fl)),
    }
}

/// Build the diffing-trait implementation for the original struct,
/// wiring each retained field to its operation.
pub fn make_diff_impl(input: &TypeDecl, diff_fields: &DiffFields) -> (imp: DiffImpl)
    requires
        diff_fields.fields@.len() == diff_fields.field_configs@.len(),
    ensures
        imp.deep_view() == (SpecDiffImpl {
            ident: input.ident.deep_view(),
            generics: input.generics.deep_view(),
            new_generics: spec_add_lifetime(input.generics.deep_view(), spec_daft_lifetime()),
            field_diffs: spec_field_diffs(
                diff_fields.fields.deep_view(),
                diff_fields.field_configs@,
            ),
        }),
{
    let daft_lt = daft_lifetime();
    DiffImpl {
        ident: input.ident.clone(),
        generics: input.generics.clone(),
        new_generics: add_lifetime_to_generics(&input.generics, &daft_lt),
        field_diffs: generate_field_diffs(&diff_fields.fields, &diff_fields.field_configs),
    }
}

// ------------------------------------------------------- whole structs

/// Everything processing a struct declaration reports: the struct
/// configuration's diagnostics (duplicates last), then — if the
/// configuration was valid — either the leaf reports or the field
/// configuration diagnostics.
pub open spec fn spec_struct_impl_errs(decl: SpecTypeDecl, fl: SpecFieldList) -> Seq<SpecError> {
    let st = spec_struct_parse(decl.attrs);
    st.errs + st.dups + if st.errs.len() == 0 {
        if st.mode == StructMode::Leaf {
            spec_make_leaf_errs(AttrPosition::LeafStruct, decl)
        } else {
            spec_fields_errs(spec_field_list_fields(fl))
        }
    } else {
        Seq::empty()
    }
}

/// What processing a struct declaration generates, if anything.
pub open spec fn spec_struct_impl_out(decl: SpecTypeDecl, fl: SpecFieldList) -> Option<
    SpecOutputCode,
> {
    let st = spec_struct_parse(decl.attrs);
    if st.errs.len() > 0 {
        None
    } else if st.mode == StructMode::Leaf {
        Some(SpecOutputCode::Leaf(spec_leaf_impl(decl)))
    } else if spec_fields_errs(spec_field_list_fields(fl)).len() > 0 {
        None
    } else {
        Some(SpecOutputCode::Struct(spec_diff_struct(decl, fl), spec_diff_impl(decl, fl)))
    }
}

/// Process one struct declaration: parse its configuration, then build
/// either the companion plan or a leaf implementation.
pub fn make_struct_impl(
    input: &TypeDecl,
    fields: &FieldList,
    errors: &mut ErrorStore<Error>,
) -> (out: Option<OutputCode>)
    ensures
        deep_errs(final(errors)@) == deep_errs(old(errors)@) + spec_struct_impl_errs(
            input.deep_view(),
            fields.deep_view(),
        ),
        out.deep_view() == spec_struct_impl_out(input.deep_view(), fields.deep_view()),
{
    let config = match StructConfig::parse_from(&input.attrs, errors) {
        Some(config) => config,
        None => {
            proof {
                let st = spec_struct_parse(input.deep_view().attrs);
                assert(deep_errs(errors@) =~= deep_errs(old(errors)@) + spec_struct_impl_errs(
                    input.deep_view(),
                    fields.deep_view(),
                ));
            }
            return None;
        },
    };
    match config.mode {
        StructMode::Default => {
            match make_diff_struct(input, fields, errors) {
                Some(pair) => {
                    let (decl, df) = pair;
                    let imp = make_diff_impl(input, &df);
                    proof {
                        assert(deep_errs(errors@) =~= deep_errs(old(errors)@)
                            + spec_struct_impl_errs(input.deep_view(), fields.deep_view()));
                    }
                    Some(OutputCode::Struct(decl, imp))
                },
                None => {
                    proof {
                        assert(deep_errs(errors@) =~= deep_errs(old(errors)@)
                            + spec_struct_impl_errs(input.deep_view(), fields.deep_view()));
                    }
                    None
                },
            }
        },
        StructMode::Leaf => {
            let leaf = make_leaf(input, AttrPosition::LeafStruct, errors);
            proof {
                assert(deep_errs(errors@) =~= deep_errs(old(errors)@) + spec_struct_impl_errs(
                    input.deep_view(),
                    fields.deep_view(),
                ));
            }
            Some(OutputCode::Leaf(leaf))
        },
    }
}

/// Non-exhaustive propagation: the companion type's declaration
/// carries the non-exhaustive marker exactly when the original struct
/// did, and its debug implementation finishes in the truncated
/// field-list style exactly then as well.
pub proof fn lemma_non_exhaustive_propagation(decl: SpecTypeDecl, fl: SpecFieldList)
    ensures
        spec_diff_struct(decl, fl).def.non_exhaustive == spec_non_exhaustive(decl.attrs),
        spec_diff_struct(decl, fl).debug_impl.finish_non_exhaustive == spec_non_exhaustive(
            decl.attrs,
        ),
{
}

/// Leaf round-trip, the engine's half: a retained field in leaf mode
/// is filled by wrapping references to the member's before and after
/// values — no transformation and no recursion — and its companion
/// field type is the opaque pair over the original field type. The
/// runtime half is the contract of the leaf implementations: a leaf
/// diff's before and after are exactly the two borrowed values,
/// unchanged.
pub proof fn lemma_leaf_round_trip(
    fields: Seq<SpecDiffField>,
    configs: Seq<FieldConfig>,
    i: int,
)
    requires
        0 <= i < fields.len(),
        fields.len() == configs.len(),
        configs[i].mode == FieldMode::Leaf,
    ensures
        spec_field_diffs(fields, configs)[i] == SpecFieldDiffOp::LeafWrap(
            spec_member_of(fields[i], i),
        ),
{
}

/// The companion field of a field configured leaf is the opaque pair
/// over the original field type.
pub proof fn lemma_leaf_field_type(field: SpecField)
    requires
        spec_field_parse(field.attrs).errs.len() == 0,
        spec_field_parse(field.attrs).mode == FieldMode::Leaf,
    ensures
        spec_diff_field_out(field) matches Some(pair) && pair.0.ty == SpecDiffTy::Leaf(field.ty)
            && pair.1.mode == FieldMode::Leaf,
{
}

// ----------------------------------------------------------- the driver

/// Everything one derive invocation reports.
pub open spec fn spec_derive_errs(decl: SpecTypeDecl) -> Seq<SpecError> {
    match decl.data {
        SpecData::Enum(_) => spec_make_leaf_errs(AttrPosition::Enum, decl),
        SpecData::Union(_) => spec_make_leaf_errs(AttrPosition::Union, decl),
        SpecData::Struct(fl) => spec_struct_impl_errs(decl, fl),
    }
}

/// What one derive invocation generates, if anything: enums and unions
/// always get a leaf implementation; structs get what their
/// configuration says.
pub open spec fn spec_derive_out(decl: SpecTypeDecl) -> Option<SpecOutputCode> {
    match decl.data {
        SpecData::Enum(_) => Some(SpecOutputCode::Leaf(spec_leaf_impl(decl))),
        SpecData::Union(_) => Some(SpecOutputCode::Leaf(spec_leaf_impl(decl))),
        SpecData::Struct(fl) => spec_struct_impl_out(decl, fl),
    }
}

/// Process one declaration from start to finish: the generated code,
/// if the configuration allowed any, and every diagnostic found, in
/// the order it was found.
pub fn derive_diffable(input: &TypeDecl) -> (output: DeriveDiffableOutput)
    ensures
        deep_errs(output.errors@) == spec_derive_errs(input.deep_view()),
        output.out.deep_view() == spec_derive_out(input.deep_view()),
{
    let mut error_store: ErrorStore<Error> = ErrorStore::new();
    proof {
        assert(deep_errs(error_store@) =~= Seq::<SpecError>::empty());
    }
    let out = match &input.data {
        Data::Enum(_) => {
            let leaf = make_leaf(input, AttrPosition::Enum, &mut error_store);
            Some(OutputCode::Leaf(leaf))
        },
        Data::Struct(fields) => {
            let generated = make_struct_impl(input, fields, &mut error_store);
            proof {
                assert(spec_field_list_fields(fields.deep_view()) == spec_field_list_fields(
                    match input.deep_view().data {
                        SpecData::Struct(fl) => fl,
                        _ => fields.deep_view(),
                    },
                ));
            }
            generated
        },
        Data::Union(_) => {
            let leaf = make_leaf(input, AttrPosition::Union, &mut error_store);
            Some(OutputCode::Leaf(leaf))
        },
    };
    proof {
        assert(deep_errs(error_store@) =~= Seq::<SpecError>::empty() + spec_derive_errs(
            input.deep_view(),
        ));
        assert(Seq::<SpecError>::empty() + spec_derive_errs(input.deep_view())
            =~= spec_derive_errs(input.deep_view()));
    }
    DeriveDiffableOutput { out, errors: error_store.into_inner() }
}

} // verus!
