//! Tests for the annotation parser and the diagnostics it reports.

use daft::ast::{Attr, AttrKind, DaftAttr, NestedMeta, ParseIssue};
use daft::config::{FieldConfig, FieldMode, StructConfig, StructMode};
use daft::diag::{Error, ErrorKind};
use daft::error_store::ErrorStore;
use daft::position::AttrPosition;

fn meta(name: &str, span: usize) -> NestedMeta {
    NestedMeta { name: name.to_string(), span }
}

fn daft_attr(names: &[(&str, usize)], span: usize) -> Attr {
    let metas = names.iter().map(|(n, s)| meta(n, *s)).collect();
    Attr { span, kind: AttrKind::Daft(DaftAttr { metas, issue: None }) }
}

fn daft_attr_with_issue(names: &[(&str, usize)], issue: ParseIssue, span: usize) -> Attr {
    let metas = names.iter().map(|(n, s)| meta(n, *s)).collect();
    Attr { span, kind: AttrKind::Daft(DaftAttr { metas, issue: Some(issue) }) }
}

#[test]
fn field_mode_defaults_to_recurse() {
    let attrs: Vec<Attr> = vec![Attr { span: 1, kind: AttrKind::Other }];
    let mut errors = ErrorStore::new();
    let config = FieldConfig::parse_from(&attrs, &mut errors);
    assert_eq!(config, Some(FieldConfig { mode: FieldMode::Default }));
    assert_eq!(errors.into_inner(), vec![]);
}

#[test]
fn field_leaf_and_ignore_each_select_their_mode() {
    let attrs = vec![daft_attr(&[("leaf", 2)], 1)];
    let mut errors = ErrorStore::new();
    assert_eq!(
        FieldConfig::parse_from(&attrs, &mut errors),
        Some(FieldConfig { mode: FieldMode::Leaf })
    );
    assert_eq!(errors.into_inner(), vec![]);

    let attrs = vec![daft_attr(&[("ignore", 2)], 1)];
    let mut errors = ErrorStore::new();
    assert_eq!(
        FieldConfig::parse_from(&attrs, &mut errors),
        Some(FieldConfig { mode: FieldMode::Ignore })
    );
    assert_eq!(errors.into_inner(), vec![]);
}

#[test]
fn field_mode_three_times_reports_one_duplicate() {
    // The same mode three times in a row: exactly one "specified
    // multiple times" report, at the second occurrence, and no
    // configuration.
    let attrs = vec![daft_attr(&[("leaf", 2), ("leaf", 3), ("leaf", 4)], 1)];
    let mut errors = ErrorStore::new();
    let config = FieldConfig::parse_from(&attrs, &mut errors);
    assert_eq!(config, None);
    assert_eq!(
        errors.into_inner(),
        vec![Error { span: 3, kind: ErrorKind::DuplicateLeaf }]
    );

    // The same across separate attributes.
    let attrs = vec![
        daft_attr(&[("ignore", 2)], 1),
        daft_attr(&[("ignore", 4)], 3),
        daft_attr(&[("ignore", 6)], 5),
    ];
    let mut errors = ErrorStore::new();
    let config = FieldConfig::parse_from(&attrs, &mut errors);
    assert_eq!(config, None);
    assert_eq!(
        errors.into_inner(),
        vec![Error { span: 4, kind: ErrorKind::DuplicateIgnore }]
    );
}

#[test]
fn field_leaf_and_ignore_conflict() {
    let attrs = vec![daft_attr(&[("leaf", 2), ("ignore", 3)], 1)];
    let mut errors = ErrorStore::new();
    assert_eq!(FieldConfig::parse_from(&attrs, &mut errors), None);
    assert_eq!(
        errors.into_inner(),
        vec![Error { span: 3, kind: ErrorKind::ConflictIgnore }]
    );

    let attrs = vec![daft_attr(&[("ignore", 2)], 1), daft_attr(&[("leaf", 4)], 3)];
    let mut errors = ErrorStore::new();
    assert_eq!(FieldConfig::parse_from(&attrs, &mut errors), None);
    assert_eq!(
        errors.into_inner(),
        vec![Error { span: 4, kind: ErrorKind::ConflictLeaf }]
    );
}

#[test]
fn field_unknown_name_is_reported() {
    let attrs = vec![daft_attr(&[("bogus", 2), ("leaf", 3)], 1)];
    let mut errors = ErrorStore::new();
    assert_eq!(FieldConfig::parse_from(&attrs, &mut errors), None);
    assert_eq!(
        errors.into_inner(),
        vec![Error { span: 2, kind: ErrorKind::UnknownFieldAttr }]
    );
}

#[test]
fn field_malformed_argument_list_is_reported() {
    // A name given a payload it does not accept: the names before the
    // failure are still honored, and the syntax layer's message is
    // carried through.
    let issue = ParseIssue { span: 3, message: "expected `,`".to_string() };
    let attrs = vec![daft_attr_with_issue(&[("leaf", 2)], issue, 1)];
    let mut errors = ErrorStore::new();
    assert_eq!(FieldConfig::parse_from(&attrs, &mut errors), None);
    assert_eq!(
        errors.into_inner(),
        vec![Error { span: 3, kind: ErrorKind::Malformed("expected `,`".to_string()) }]
    );
}

#[test]
fn field_parsing_twice_resolves_the_same() {
    // Re-parsing the same annotations yields the same configuration
    // and the same diagnostics, also with unrelated errors already in
    // the store.
    let attrs = vec![daft_attr(&[("leaf", 2), ("leaf", 3)], 1)];

    let mut first_store = ErrorStore::new();
    let first = FieldConfig::parse_from(&attrs, &mut first_store);

    let mut second_store = ErrorStore::new();
    second_store.push(Error { span: 99, kind: ErrorKind::UnknownFieldAttr });
    let second = FieldConfig::parse_from(&attrs, &mut second_store);

    assert_eq!(first, second);
    let first_errors = first_store.into_inner();
    let second_errors = second_store.into_inner();
    assert_eq!(first_errors, second_errors[1..].to_vec());
}

#[test]
fn struct_leaf_is_accepted_once() {
    let attrs = vec![daft_attr(&[("leaf", 2)], 1)];
    let mut errors = ErrorStore::new();
    assert_eq!(
        StructConfig::parse_from(&attrs, &mut errors),
        Some(StructConfig { mode: StructMode::Leaf })
    );
    assert_eq!(errors.into_inner(), vec![]);
}

#[test]
fn struct_duplicate_leaf_reports_but_keeps_the_configuration() {
    // A duplicate struct-level marker is reported once, yet the
    // configuration survives: the leaf implementation is still
    // generated alongside the report.
    let attrs = vec![daft_attr(&[("leaf", 2), ("leaf", 3), ("leaf", 4)], 1)];
    let mut errors = ErrorStore::new();
    let config = StructConfig::parse_from(&attrs, &mut errors);
    assert_eq!(config, Some(StructConfig { mode: StructMode::Leaf }));
    assert_eq!(
        errors.into_inner(),
        vec![Error { span: 3, kind: ErrorKind::DuplicateLeaf }]
    );
}

#[test]
fn struct_duplicate_reports_come_after_other_reports() {
    // The duplicate was seen before the unknown name, but its report
    // is appended after all ordinary diagnostics.
    let attrs = vec![daft_attr(&[("leaf", 2), ("leaf", 3), ("bogus", 4)], 1)];
    let mut errors = ErrorStore::new();
    let config = StructConfig::parse_from(&attrs, &mut errors);
    assert_eq!(config, None);
    assert_eq!(
        errors.into_inner(),
        vec![
            Error { span: 4, kind: ErrorKind::UnknownStructAttr },
            Error { span: 3, kind: ErrorKind::DuplicateLeaf },
        ]
    );
}

#[test]
fn struct_ignore_is_unknown() {
    let attrs = vec![daft_attr(&[("ignore", 2)], 1)];
    let mut errors = ErrorStore::new();
    assert_eq!(StructConfig::parse_from(&attrs, &mut errors), None);
    assert_eq!(
        errors.into_inner(),
        vec![Error { span: 2, kind: ErrorKind::UnknownStructAttr }]
    );
}

#[test]
fn messages_render_exactly() {
    let message = |kind: ErrorKind| Error { span: 0, kind }.message();
    assert_eq!(message(ErrorKind::DuplicateLeaf), "#[daft(leaf)] specified multiple times");
    assert_eq!(message(ErrorKind::DuplicateIgnore), "#[daft(ignore)] specified multiple times");
    assert_eq!(message(ErrorKind::ConflictLeaf), "#[daft(leaf)] conflicts with other attributes");
    assert_eq!(
        message(ErrorKind::ConflictIgnore),
        "#[daft(ignore)] conflicts with other attributes"
    );
    assert_eq!(
        message(ErrorKind::UnknownFieldAttr),
        "unknown attribute (supported attributes: leaf, ignore)"
    );
    assert_eq!(
        message(ErrorKind::UnknownStructAttr),
        "unknown attribute (supported attributes: leaf)"
    );
    assert_eq!(
        message(ErrorKind::NotAllowed(AttrPosition::UnionField)),
        "daft attributes are not allowed on union fields"
    );
    assert_eq!(
        message(ErrorKind::NotAllowed(AttrPosition::VariantField)),
        "daft attributes are not allowed on enum variant fields"
    );
    assert_eq!(
        message(ErrorKind::Unnecessary(AttrPosition::Enum)),
        "this is unnecessary: the Diffable implementation for enums is always a leaf"
    );
    assert_eq!(
        message(ErrorKind::Malformed("oops".to_string())),
        "oops"
    );
}

#[test]
fn positions_step_as_the_walk_descends() {
    assert_eq!(AttrPosition::Enum.visit_variant(), AttrPosition::Variant);
    assert_eq!(AttrPosition::Variant.visit_field(), AttrPosition::VariantField);
    assert_eq!(AttrPosition::LeafStruct.visit_field(), AttrPosition::LeafStructField);
    assert_eq!(AttrPosition::Union.visit_field(), AttrPosition::UnionField);
    // Anything else collapses to the catch-all.
    assert_eq!(AttrPosition::Union.visit_variant(), AttrPosition::General);
    assert_eq!(AttrPosition::Enum.visit_field(), AttrPosition::General);
}
