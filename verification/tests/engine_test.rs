//! Tests for the code-generation engine: whole declarations in, the
//! generated-code plan and the accumulated diagnostics out.

use daft::ast::{
    Attr, AttrKind, Bound, DaftAttr, Data, Field, FieldList, GenericParam, Generics,
    LifetimeParam, NestedMeta, TypeDecl, TypeParam, Variant, WhereClause,
};
use daft::diag::{Error, ErrorKind};
use daft::generics::{add_lifetime_to_generics, daft_lifetime};
use daft::output::{DiffTy, FieldDiffOp, Member, OutputCode, ShapeKind};
use daft::position::AttrPosition;
use daft::synth::derive_diffable;

fn daft_attr(names: &[(&str, usize)], span: usize) -> Attr {
    let metas = names
        .iter()
        .map(|(n, s)| NestedMeta { name: n.to_string(), span: *s })
        .collect();
    Attr { span, kind: AttrKind::Daft(DaftAttr { metas, issue: None }) }
}

fn plain_field(name: &str, ty: &str, span: usize) -> Field {
    Field {
        name: Some(name.to_string()),
        vis: String::new(),
        ty: ty.to_string(),
        attrs: vec![],
        span,
    }
}

fn empty_generics() -> Generics {
    Generics { params: vec![], where_clause: None }
}

fn struct_decl(ident: &str, attrs: Vec<Attr>, generics: Generics, fields: FieldList) -> TypeDecl {
    TypeDecl {
        ident: ident.to_string(),
        vis: "pub".to_string(),
        attrs,
        generics,
        data: Data::Struct(fields),
    }
}

#[test]
fn recursive_struct_plan() {
    // A plain two-field struct: the companion mirrors both fields with
    // recursively-diffed types, and the implementation recurses into
    // each field.
    let decl = struct_decl(
        "Point",
        vec![],
        empty_generics(),
        FieldList::Named(vec![plain_field("x", "i32", 10), plain_field("y", "i32", 11)]),
    );
    let output = derive_diffable(&decl);
    assert_eq!(output.errors, vec![]);
    let (decl_plan, imp) = match output.out {
        Some(OutputCode::Struct(d, i)) => (d, i),
        other => panic!("expected a companion plan, got {:?}", other),
    };
    assert_eq!(decl_plan.def.ident, "Point");
    assert_eq!(decl_plan.def.diff_ident(), "PointDiff");
    assert_eq!(decl_plan.def.shape, ShapeKind::Named);
    assert!(!decl_plan.def.non_exhaustive);
    assert_eq!(decl_plan.def.fields.len(), 2);
    assert_eq!(decl_plan.def.fields[0].name.as_deref(), Some("x"));
    assert_eq!(decl_plan.def.fields[0].ty, DiffTy::Recurse("i32".to_string()));
    assert_eq!(decl_plan.def.fields[1].name.as_deref(), Some("y"));
    assert_eq!(decl_plan.def.fields[1].ty, DiffTy::Recurse("i32".to_string()));
    // The companion's generics start with the fresh diff lifetime.
    match &decl_plan.def.generics.params[0] {
        GenericParam::Lifetime(lt) => assert_eq!(lt.name, "__daft"),
        other => panic!("expected the diff lifetime first, got {:?}", other),
    }
    assert_eq!(
        imp.field_diffs,
        vec![
            FieldDiffOp::RecurseDiff(Member::Named("x".to_string())),
            FieldDiffOp::RecurseDiff(Member::Named("y".to_string())),
        ]
    );
    assert!(!decl_plan.debug_impl.finish_non_exhaustive);
    assert_eq!(
        decl_plan.debug_impl.members,
        vec![Member::Named("x".to_string()), Member::Named("y".to_string())]
    );
    assert_eq!(decl_plan.partial_eq_impl.members, decl_plan.debug_impl.members);
}

#[test]
fn leaf_field_becomes_an_opaque_pair() {
    let mut field = plain_field("name", "String", 10);
    field.attrs = vec![daft_attr(&[("leaf", 21)], 20)];
    let decl = struct_decl(
        "Person",
        vec![],
        empty_generics(),
        FieldList::Named(vec![field, plain_field("age", "u8", 11)]),
    );
    let output = derive_diffable(&decl);
    assert_eq!(output.errors, vec![]);
    let decl_plan = match output.out {
        Some(OutputCode::Struct(d, _)) => d,
        other => panic!("expected a companion plan, got {:?}", other),
    };
    assert_eq!(decl_plan.def.fields[0].ty, DiffTy::Leaf("String".to_string()));
    assert_eq!(decl_plan.def.fields[1].ty, DiffTy::Recurse("u8".to_string()));
}

#[test]
fn ignored_field_appears_nowhere() {
    let mut hidden = plain_field("secret", "String", 10);
    hidden.attrs = vec![daft_attr(&[("ignore", 21)], 20)];
    let decl = struct_decl(
        "Account",
        vec![],
        empty_generics(),
        FieldList::Named(vec![hidden, plain_field("id", "u64", 11)]),
    );
    let output = derive_diffable(&decl);
    assert_eq!(output.errors, vec![]);
    let (decl_plan, imp) = match output.out {
        Some(OutputCode::Struct(d, i)) => (d, i),
        other => panic!("expected a companion plan, got {:?}", other),
    };
    assert_eq!(decl_plan.def.fields.len(), 1);
    assert_eq!(decl_plan.def.fields[0].name.as_deref(), Some("id"));
    assert_eq!(decl_plan.debug_impl.members, vec![Member::Named("id".to_string())]);
    assert_eq!(decl_plan.partial_eq_impl.members, vec![Member::Named("id".to_string())]);
    assert_eq!(decl_plan.debug_impl.where_clause.tys, vec![DiffTy::Recurse("u64".to_string())]);
    assert_eq!(imp.field_diffs, vec![FieldDiffOp::RecurseDiff(Member::Named("id".to_string()))]);
}

#[test]
fn field_error_withholds_the_plan_but_keeps_the_declaration_usable() {
    let mut bad = plain_field("a", "i32", 10);
    bad.attrs = vec![daft_attr(&[("leaf", 21), ("leaf", 22), ("leaf", 23)], 20)];
    let decl = struct_decl("Broken", vec![], empty_generics(), FieldList::Named(vec![bad]));
    let output = derive_diffable(&decl);
    assert_eq!(output.out, None);
    assert_eq!(
        output.errors,
        vec![Error { span: 22, kind: ErrorKind::DuplicateLeaf }]
    );
}

#[test]
fn opaque_struct_is_a_leaf_and_bans_nested_annotations() {
    // A struct marked leaf gets no companion type, only the leaf
    // implementation; a field-level annotation inside it is misplaced,
    // even under the otherwise legal name.
    let mut field = plain_field("inner", "String", 10);
    field.attrs = vec![daft_attr(&[("leaf", 31)], 30)];
    let decl = struct_decl(
        "Opaque",
        vec![daft_attr(&[("leaf", 21)], 20)],
        empty_generics(),
        FieldList::Named(vec![field]),
    );
    let output = derive_diffable(&decl);
    let leaf = match output.out {
        Some(OutputCode::Leaf(leaf)) => leaf,
        other => panic!("expected a leaf implementation, got {:?}", other),
    };
    assert_eq!(leaf.ident, "Opaque");
    assert_eq!(
        output.errors,
        vec![Error {
            span: 30,
            kind: ErrorKind::NotAllowed(AttrPosition::LeafStructField),
        }]
    );
}

#[test]
fn enums_are_always_leaves() {
    let decl = TypeDecl {
        ident: "E".to_string(),
        vis: String::new(),
        attrs: vec![],
        generics: empty_generics(),
        data: Data::Enum(vec![
            Variant { attrs: vec![], fields: FieldList::Unit, span: 10 },
            Variant {
                attrs: vec![],
                fields: FieldList::Unnamed(vec![Field {
                    name: None,
                    vis: String::new(),
                    ty: "u32".to_string(),
                    attrs: vec![],
                    span: 12,
                }]),
                span: 11,
            },
        ]),
    };
    let output = derive_diffable(&decl);
    assert_eq!(output.errors, vec![]);
    match output.out {
        Some(OutputCode::Leaf(leaf)) => assert_eq!(leaf.ident, "E"),
        other => panic!("expected a leaf implementation, got {:?}", other),
    }
}

#[test]
fn enum_annotations_are_reported_in_place() {
    let mut variant_field = plain_field("payload", "u32", 13);
    variant_field.attrs = vec![daft_attr(&[("ignore", 41)], 40)];
    let decl = TypeDecl {
        ident: "E".to_string(),
        vis: String::new(),
        attrs: vec![daft_attr(&[("leaf", 21)], 20)],
        generics: empty_generics(),
        data: Data::Enum(vec![Variant {
            attrs: vec![daft_attr(&[("leaf", 31)], 30)],
            fields: FieldList::Named(vec![variant_field]),
            span: 10,
        }]),
    };
    let output = derive_diffable(&decl);
    assert!(matches!(output.out, Some(OutputCode::Leaf(_))));
    assert_eq!(
        output.errors,
        vec![
            Error { span: 21, kind: ErrorKind::Unnecessary(AttrPosition::Enum) },
            Error { span: 30, kind: ErrorKind::NotAllowed(AttrPosition::Variant) },
            Error { span: 40, kind: ErrorKind::NotAllowed(AttrPosition::VariantField) },
        ]
    );
}

#[test]
fn union_fields_ban_annotations() {
    let mut field = plain_field("raw", "u32", 10);
    field.attrs = vec![daft_attr(&[("leaf", 31)], 30)];
    let decl = TypeDecl {
        ident: "U".to_string(),
        vis: String::new(),
        attrs: vec![],
        generics: empty_generics(),
        data: Data::Union(vec![field]),
    };
    let output = derive_diffable(&decl);
    assert!(matches!(output.out, Some(OutputCode::Leaf(_))));
    assert_eq!(
        output.errors,
        vec![Error { span: 30, kind: ErrorKind::NotAllowed(AttrPosition::UnionField) }]
    );
}

#[test]
fn non_exhaustive_propagates_to_the_companion() {
    let decl = struct_decl(
        "Grows",
        vec![Attr { span: 20, kind: AttrKind::NonExhaustive }],
        empty_generics(),
        FieldList::Named(vec![plain_field("a", "i32", 10)]),
    );
    let output = derive_diffable(&decl);
    assert_eq!(output.errors, vec![]);
    let decl_plan = match output.out {
        Some(OutputCode::Struct(d, _)) => d,
        other => panic!("expected a companion plan, got {:?}", other),
    };
    assert!(decl_plan.def.non_exhaustive);
    assert!(decl_plan.debug_impl.finish_non_exhaustive);
}

#[test]
fn generics_gain_the_diff_lifetime_and_outlives_bounds() {
    let generics = Generics {
        params: vec![
            GenericParam::Lifetime(LifetimeParam {
                name: "a".to_string(),
                bounds: vec!["b".to_string()],
            }),
            GenericParam::Type(TypeParam {
                name: "T".to_string(),
                bounds: vec![Bound::Trait("Clone".to_string())],
                default: None,
            }),
        ],
        where_clause: Some(WhereClause { predicates: vec!["T: Send".to_string()] }),
    };
    let lt = daft_lifetime();
    let augmented = add_lifetime_to_generics(&generics, &lt);
    assert_eq!(augmented.params.len(), 3);
    match &augmented.params[0] {
        GenericParam::Lifetime(l) => {
            assert_eq!(l.name, "__daft");
            assert_eq!(l.bounds, Vec::<String>::new());
        },
        other => panic!("expected the diff lifetime first, got {:?}", other),
    }
    match &augmented.params[1] {
        GenericParam::Lifetime(l) => {
            assert_eq!(l.name, "a");
            assert_eq!(l.bounds, vec!["b".to_string(), "__daft".to_string()]);
        },
        other => panic!("expected the original lifetime, got {:?}", other),
    }
    match &augmented.params[2] {
        GenericParam::Type(t) => {
            assert_eq!(t.name, "T");
            assert_eq!(
                t.bounds,
                vec![
                    Bound::Trait("Clone".to_string()),
                    Bound::Outlives("__daft".to_string()),
                ]
            );
        },
        other => panic!("expected the original type parameter, got {:?}", other),
    }
    assert_eq!(
        augmented.where_clause,
        Some(WhereClause { predicates: vec!["T: Send".to_string()] })
    );
}

#[test]
fn tuple_struct_members_are_positional() {
    let skipped = Field {
        name: None,
        vis: String::new(),
        ty: "u8".to_string(),
        attrs: vec![daft_attr(&[("ignore", 21)], 20)],
        span: 10,
    };
    let kept = Field {
        name: None,
        vis: String::new(),
        ty: "String".to_string(),
        attrs: vec![],
        span: 11,
    };
    let decl = struct_decl(
        "Pair",
        vec![],
        empty_generics(),
        FieldList::Unnamed(vec![skipped, kept]),
    );
    let output = derive_diffable(&decl);
    assert_eq!(output.errors, vec![]);
    let (decl_plan, imp) = match output.out {
        Some(OutputCode::Struct(d, i)) => (d, i),
        other => panic!("expected a companion plan, got {:?}", other),
    };
    assert_eq!(decl_plan.def.shape, ShapeKind::Unnamed);
    assert_eq!(decl_plan.def.fields.len(), 1);
    assert_eq!(decl_plan.def.fields[0].name, None);
    // Retained fields are numbered by their position in the companion.
    assert_eq!(imp.field_diffs, vec![FieldDiffOp::RecurseDiff(Member::Position(0))]);
    assert_eq!(decl_plan.debug_impl.members, vec![Member::Position(0)]);
}

#[test]
fn unit_struct_still_gets_a_companion() {
    let decl = struct_decl("Nothing", vec![], empty_generics(), FieldList::Unit);
    let output = derive_diffable(&decl);
    assert_eq!(output.errors, vec![]);
    let (decl_plan, imp) = match output.out {
        Some(OutputCode::Struct(d, i)) => (d, i),
        other => panic!("expected a companion plan, got {:?}", other),
    };
    assert_eq!(decl_plan.def.shape, ShapeKind::Unit);
    assert_eq!(decl_plan.def.fields.len(), 0);
    assert_eq!(imp.field_diffs, vec![]);
}

#[test]
fn struct_unknown_attribute_withholds_everything() {
    let decl = struct_decl(
        "S",
        vec![daft_attr(&[("bogus", 21)], 20)],
        empty_generics(),
        FieldList::Named(vec![plain_field("a", "i32", 10)]),
    );
    let output = derive_diffable(&decl);
    assert_eq!(output.out, None);
    assert_eq!(
        output.errors,
        vec![Error { span: 21, kind: ErrorKind::UnknownStructAttr }]
    );
}
