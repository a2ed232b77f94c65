//! Parsing `daft` annotations into per-field and per-struct configurations.
//!
//! Field-level annotations drive a small state machine seeded at the
//! default (recursive) mode: `leaf` and `ignore` each select their mode
//! once; repeating one is a duplicate, combining the two is a conflict,
//! and any other name is unknown. The first duplicate or conflict on a
//! field is reported and ends mode tracking for that field, so repeating
//! an annotation three times reports one error, not two. Unknown names
//! and malformed argument lists are reported wherever they occur.
//!
//! Struct-level annotations go through the same machine restricted to
//! `leaf`. Duplicate reports at struct level are held back and appended
//! after all other diagnostics; they do not by themselves invalidate the
//! configuration.

use vstd::prelude::*;
use vstd::string::StringExecFns;
use crate::ast::{Attr, AttrKind, SpecAttr, SpecAttrKind, SpecDaftAttr, SpecNestedMeta};
use crate::diag::{deep_errs, lemma_deep_errs_push, Error, ErrorKind, SpecError, SpecErrorKind};
use crate::error_store::ErrorStore;

verus! {

/// How one field is diffed.
#[derive(Clone, Copy, Debug, PartialEq, Eq, Structural)]
pub enum FieldMode {
    /// The default mode: diff the field's type recursively.
    Default,
    /// Treat the field's before/after values as one opaque leaf.
    Leaf,
    /// Drop the field from the companion type and the diff entirely.
    Ignore,
}

/// The validated configuration of one field.
#[derive(Clone, Copy, Debug, PartialEq, Eq, Structural)]
pub struct FieldConfig {
    /// The field's mode.
    pub mode: FieldMode,
}

/// How a whole struct is diffed.
#[derive(Clone, Copy, Debug, PartialEq, Eq, Structural)]
pub enum StructMode {
    /// The default mode: diff field by field.
    Default,
    /// Treat the whole struct as one opaque leaf.
    Leaf,
}

/// The validated configuration of one struct.
#[derive(Clone, Copy, Debug, PartialEq, Eq, Structural)]
pub struct StructConfig {
    /// The struct's mode.
    pub mode: StructMode,
}

/// Build one spec-level error.
pub open spec fn spec_err(span: usize, kind: SpecErrorKind) -> SpecError {
    SpecError { span, kind }
}

// --------------------------------------------------- field-level parsing

/// The state of the field-annotation machine: the mode chosen so far,
/// whether a duplicate or conflict has already been reported (which ends
/// mode tracking), and the errors reported so far.
pub struct SpecFieldState {
    pub mode: FieldMode,
    pub failed: bool,
    pub errs: Seq<SpecError>,
}

/// The machine's starting state.
pub open spec fn spec_field_init() -> SpecFieldState {
    SpecFieldState { mode: FieldMode::Default, failed: false, errs: Seq::empty() }
}

/// One step of the field-annotation machine, on one name.
pub open spec fn spec_field_meta_step(st: SpecFieldState, meta: SpecNestedMeta) -> SpecFieldState {
    if meta.name == "leaf"@ {
        if st.failed {
            st
        } else {
            match st.mode {
                FieldMode::Default => SpecFieldState { mode: FieldMode::Leaf, ..st },
                FieldMode::Leaf => SpecFieldState {
                    failed: true,
                    errs: st.errs.push(spec_err(meta.span, SpecErrorKind::DuplicateLeaf)),
                    ..st
                },
                FieldMode::Ignore => SpecFieldState {
                    failed: true,
                    errs: st.errs.push(spec_err(meta.span, SpecErrorKind::ConflictLeaf)),
                    ..st
                },
            }
        }
    } else if meta.name == "ignore"@ {
        if st.failed {
            st
        } else {
            match st.mode {
                FieldMode::Default => SpecFieldState { mode: FieldMode::Ignore, ..st },
                FieldMode::Ignore => SpecFieldState {
                    failed: true,
                    errs: st.errs.push(spec_err(meta.span, SpecErrorKind::DuplicateIgnore)),
                    ..st
                },
                FieldMode::Leaf => SpecFieldState {
                    failed: true,
                    errs: st.errs.push(spec_err(meta.span, SpecErrorKind::ConflictIgnore)),
                    ..st
                },
            }
        }
    } else {
        SpecFieldState {
            errs: st.errs.push(spec_err(meta.span, SpecErrorKind::UnknownFieldAttr)),
            ..st
        }
    }
}

/// The machine run over a list of names.
pub open spec fn spec_field_metas(st: SpecFieldState, metas: Seq<SpecNestedMeta>) -> SpecFieldState
    decreases metas.len(),
{
    if metas.len() == 0 {
        st
    } else {
        spec_field_metas(spec_field_meta_step(st, metas[0]), metas.drop_first())
    }
}

/// Running the machine over `metas.push(m)` is running it over `metas`,
/// then stepping on `m`.
pub proof fn lemma_field_metas_snoc(st: SpecFieldState, metas: Seq<SpecNestedMeta>, m: SpecNestedMeta)
    ensures
        spec_field_metas(st, metas.push(m)) == spec_field_meta_step(spec_field_metas(st, metas), m),
    decreases metas.len(),
{
    reveal_with_fuel(spec_field_metas, 3);
    if metas.len() == 0 {
        assert(metas.push(m)[0] == m);
        assert(metas.push(m).drop_first() =~= Seq::<SpecNestedMeta>::empty());
    } else {
        assert(metas.push(m)[0] == metas[0]);
        assert(metas.push(m).drop_first() =~= metas.drop_first().push(m));
        lemma_field_metas_snoc(spec_field_meta_step(st, metas[0]), metas.drop_first(), m);
    }
}

/// One step of the machine over a whole attribute: a `daft` annotation
/// runs the machine over its names and then reports a trailing syntax
/// failure, if any; every other attribute is left alone.
pub open spec fn spec_field_attr_step(st: SpecFieldState, attr: SpecAttr) -> SpecFieldState {
    match attr.kind {
        SpecAttrKind::Daft(d) => {
            let stepped = spec_field_metas(st, d.metas);
            match d.issue {
                Some(issue) => SpecFieldState {
                    errs: stepped.errs.push(
                        spec_err(issue.span, SpecErrorKind::Malformed(issue.message)),
                    ),
                    ..stepped
                },
                None => stepped,
            }
        },
        SpecAttrKind::NonExhaustive => st,
        SpecAttrKind::Other => st,
    }
}

/// The machine run over a list of attributes.
pub open spec fn spec_field_attrs(st: SpecFieldState, attrs: Seq<SpecAttr>) -> SpecFieldState
    decreases attrs.len(),
{
    if attrs.len() == 0 {
        st
    } else {
        spec_field_attrs(spec_field_attr_step(st, attrs[0]), attrs.drop_first())
    }
}

/// Running the machine over `attrs.push(a)` is running it over `attrs`,
/// then stepping on `a`.
pub proof fn lemma_field_attrs_snoc(st: SpecFieldState, attrs: Seq<SpecAttr>, a: SpecAttr)
    ensures
        spec_field_attrs(st, attrs.push(a)) == spec_field_attr_step(spec_field_attrs(st, attrs), a),
    decreases attrs.len(),
{
    reveal_with_fuel(spec_field_attrs, 3);
    if attrs.len() == 0 {
        assert(attrs.push(a)[0] == a);
        assert(attrs.push(a).drop_first() =~= Seq::<SpecAttr>::empty());
    } else {
        assert(attrs.push(a)[0] == attrs[0]);
        assert(attrs.push(a).drop_first() =~= attrs.drop_first().push(a));
        lemma_field_attrs_snoc(spec_field_attr_step(st, attrs[0]), attrs.drop_first(), a);
    }
}

/// What parsing a field's attributes yields: the final machine state.
pub open spec fn spec_field_parse(attrs: Seq<SpecAttr>) -> SpecFieldState {
    spec_field_attrs(spec_field_init(), attrs)
}

// -------------------------------------------------- struct-level parsing

/// The state of the struct-annotation machine: the mode chosen so far,
/// whether a duplicate has already been recorded, the ordinary errors,
/// and the duplicate reports held back to be appended after them.
pub struct SpecStructState {
    pub mode: StructMode,
    pub dup_reported: bool,
    pub errs: Seq<SpecError>,
    pub dups: Seq<SpecError>,
}

/// The machine's starting state.
pub open spec fn spec_struct_init() -> SpecStructState {
    SpecStructState {
        mode: StructMode::Default,
        dup_reported: false,
        errs: Seq::empty(),
        dups: Seq::empty(),
    }
}

/// One step of the struct-annotation machine, on one name. Only `leaf`
/// is recognized at struct level.
pub open spec fn spec_struct_meta_step(st: SpecStructState, meta: SpecNestedMeta) -> SpecStructState {
    if meta.name == "leaf"@ {
        match st.mode {
            StructMode::Default => SpecStructState { mode: StructMode::Leaf, ..st },
            StructMode::Leaf => if st.dup_reported {
                st
            } else {
                SpecStructState {
                    dup_reported: true,
                    dups: st.dups.push(spec_err(meta.span, SpecErrorKind::DuplicateLeaf)),
                    ..st
                }
            },
        }
    } else {
        SpecStructState {
            errs: st.errs.push(spec_err(meta.span, SpecErrorKind::UnknownStructAttr)),
            ..st
        }
    }
}

/// The machine run over a list of names.
pub open spec fn spec_struct_metas(st: SpecStructState, metas: Seq<SpecNestedMeta>) -> SpecStructState
    decreases metas.len(),
{
    if metas.len() == 0 {
        st
    } else {
        spec_struct_metas(spec_struct_meta_step(st, metas[0]), metas.drop_first())
    }
}

/// Running the machine over `metas.push(m)` is running it over `metas`,
/// then stepping on `m`.
pub proof fn lemma_struct_metas_snoc(
    st: SpecStructState,
    metas: Seq<SpecNestedMeta>,
    m: SpecNestedMeta,
)
    ensures
        spec_struct_metas(st, metas.push(m)) == spec_struct_meta_step(
            spec_struct_metas(st, metas),
            m,
        ),
    decreases metas.len(),
{
    reveal_with_fuel(spec_struct_metas, 3);
    if metas.len() == 0 {
        assert(metas.push(m)[0] == m);
        assert(metas.push(m).drop_first() =~= Seq::<SpecNestedMeta>::empty());
    } else {
        assert(metas.push(m)[0] == metas[0]);
        assert(metas.push(m).drop_first() =~= metas.drop_first().push(m));
        lemma_struct_metas_snoc(spec_struct_meta_step(st, metas[0]), metas.drop_first(), m);
    }
}

/// One step of the machine over a whole attribute.
pub open spec fn spec_struct_attr_step(st: SpecStructState, attr: SpecAttr) -> SpecStructState {
    match attr.kind {
        SpecAttrKind::Daft(d) => {
            let stepped = spec_struct_metas(st, d.metas);
            match d.issue {
                Some(issue) => SpecStructState {
                    errs: stepped.errs.push(
                        spec_err(issue.span, SpecErrorKind::Malformed(issue.message)),
                    ),
                    ..stepped
                },
                None => stepped,
            }
        },
        SpecAttrKind::NonExhaustive => st,
        SpecAttrKind::Other => st,
    }
}

/// The machine run over a list of attributes.
pub open spec fn spec_struct_attrs(st: SpecStructState, attrs: Seq<SpecAttr>) -> SpecStructState
    decreases attrs.len(),
{
    if attrs.len() == 0 {
        st
    } else {
        spec_struct_attrs(spec_struct_attr_step(st, attrs[0]), attrs.drop_first())
    }
}

/// Running the machine over `attrs.push(a)` is running it over `attrs`,
/// then stepping on `a`.
pub proof fn lemma_struct_attrs_snoc(st: SpecStructState, attrs: Seq<SpecAttr>, a: SpecAttr)
    ensures
        spec_struct_attrs(st, attrs.push(a)) == spec_struct_attr_step(
            spec_struct_attrs(st, attrs),
            a,
        ),
    decreases attrs.len(),
{
    reveal_with_fuel(spec_struct_attrs, 3);
    if attrs.len() == 0 {
        assert(attrs.push(a)[0] == a);
        assert(attrs.push(a).drop_first() =~= Seq::<SpecAttr>::empty());
    } else {
        assert(attrs.push(a)[0] == attrs[0]);
        assert(attrs.push(a).drop_first() =~= attrs.drop_first().push(a));
        lemma_struct_attrs_snoc(spec_struct_attr_step(st, attrs[0]), attrs.drop_first(), a);
    }
}

/// What parsing a struct's attributes yields: the final machine state.
pub open spec fn spec_struct_parse(attrs: Seq<SpecAttr>) -> SpecStructState {
    spec_struct_attrs(spec_struct_init(), attrs)
}

// ------------------------------------------------------------- the laws

/// Whether some name occurs in a list of annotation names.
pub open spec fn metas_mention(metas: Seq<SpecNestedMeta>, name: Seq<char>) -> bool {
    exists|i: int| 0 <= i < metas.len() && metas[i].name == name
}

/// Whether some name occurs inside any `daft` annotation of the list.
pub open spec fn attrs_mention(attrs: Seq<SpecAttr>, name: Seq<char>) -> bool {
    exists|i: int|
        0 <= i < attrs.len() && match #[trigger] attrs[i].kind {
            SpecAttrKind::Daft(d) => metas_mention(d.metas, name),
            _ => false,
        }
}

/// The field machine only ever appends diagnostics: what a run reports
/// extends what was already reported when it started.
pub proof fn lemma_field_metas_extend(st: SpecFieldState, metas: Seq<SpecNestedMeta>)
    ensures
        spec_field_metas(st, metas).errs == st.errs + spec_field_metas(st, metas).errs.skip(
            st.errs.len() as int,
        ),
        spec_field_metas(st, metas).errs.len() >= st.errs.len(),
    decreases metas.len(),
{
    if metas.len() == 0 {
        assert(st.errs + st.errs.skip(st.errs.len() as int) =~= st.errs);
    } else {
        let st1 = spec_field_meta_step(st, metas[0]);
        lemma_field_metas_extend(st1, metas.drop_first());
        let fin = spec_field_metas(st1, metas.drop_first());
        assert(st1.errs.len() >= st.errs.len());
        assert(fin.errs =~= st.errs + fin.errs.skip(st.errs.len() as int));
    }
}

/// As [`lemma_field_metas_extend`], one level up, over whole attributes.
pub proof fn lemma_field_attrs_extend(st: SpecFieldState, attrs: Seq<SpecAttr>)
    ensures
        spec_field_attrs(st, attrs).errs == st.errs + spec_field_attrs(st, attrs).errs.skip(
            st.errs.len() as int,
        ),
        spec_field_attrs(st, attrs).errs.len() >= st.errs.len(),
    decreases attrs.len(),
{
    if attrs.len() == 0 {
        assert(st.errs + st.errs.skip(st.errs.len() as int) =~= st.errs);
    } else {
        let st1 = spec_field_attr_step(st, attrs[0]);
        match attrs[0].kind {
            SpecAttrKind::Daft(d) => {
                lemma_field_metas_extend(st, d.metas);
            },
            _ => {},
        }
        assert(st1.errs.len() >= st.errs.len());
        lemma_field_attrs_extend(st1, attrs.drop_first());
        let fin = spec_field_attrs(st1, attrs.drop_first());
        assert(fin.errs =~= st.errs + fin.errs.skip(st.errs.len() as int));
    }
}

/// In a run of the field machine that reports nothing, the final mode
/// tells exactly which annotations were seen: `leaf` forces the leaf
/// mode and `ignore` forces the ignore mode.
proof fn lemma_field_metas_error_free(st: SpecFieldState, metas: Seq<SpecNestedMeta>)
    requires
        spec_field_metas(st, metas).errs.len() == st.errs.len(),
        !st.failed,
    ensures
        metas_mention(metas, "leaf"@) ==> spec_field_metas(st, metas).mode == FieldMode::Leaf,
        metas_mention(metas, "ignore"@) ==> spec_field_metas(st, metas).mode == FieldMode::Ignore,
        !spec_field_metas(st, metas).failed,
    decreases metas.len(),
{
    reveal_strlit("leaf");
    reveal_strlit("ignore");
    if metas.len() > 0 {
        let st1 = spec_field_meta_step(st, metas[0]);
        lemma_field_metas_extend(st1, metas.drop_first());
        assert(st1.errs.len() == st.errs.len());
        lemma_field_metas_error_free(st1, metas.drop_first());
        if st1.mode != FieldMode::Default {
            lemma_field_metas_mode_sticky(st1, metas.drop_first());
        }
        assert(forall|i: int| 1 <= i < metas.len() ==> metas[i] == metas.drop_first()[i - 1]);
        if metas_mention(metas, "leaf"@) {
            let w = choose|w: int| 0 <= w < metas.len() && metas[w].name == "leaf"@;
            assert(0 <= w < metas.len() && metas[w].name == "leaf"@);
            if w > 0 {
                assert(metas.drop_first()[w - 1].name == "leaf"@);
                assert(metas_mention(metas.drop_first(), "leaf"@));
            }
        }
        if metas_mention(metas, "ignore"@) {
            let w = choose|w: int| 0 <= w < metas.len() && metas[w].name == "ignore"@;
            assert(0 <= w < metas.len() && metas[w].name == "ignore"@);
            if w > 0 {
                assert(metas.drop_first()[w - 1].name == "ignore"@);
                assert(metas_mention(metas.drop_first(), "ignore"@));
                assert(spec_field_metas(st1, metas.drop_first()).mode == FieldMode::Ignore);
            } else {
                assert(metas[0].name == "ignore"@);
                assert(!(metas[0].name == "leaf"@));
                assert(st1.mode == FieldMode::Ignore);
                assert(spec_field_metas(st1, metas.drop_first()).mode == FieldMode::Ignore);
            }
            assert(spec_field_metas(st, metas).mode == FieldMode::Ignore);
        }
    }
}

/// In an error-free run, a mode once chosen is never changed: leaving
/// the leaf or ignore mode would require a duplicate or a conflict,
/// both of which report.
proof fn lemma_field_metas_mode_sticky(st: SpecFieldState, metas: Seq<SpecNestedMeta>)
    requires
        spec_field_metas(st, metas).errs.len() == st.errs.len(),
        !st.failed,
        st.mode != FieldMode::Default,
    ensures
        spec_field_metas(st, metas).mode == st.mode,
    decreases metas.len(),
{
    reveal_strlit("leaf");
    reveal_strlit("ignore");
    if metas.len() > 0 {
        let st1 = spec_field_meta_step(st, metas[0]);
        lemma_field_metas_extend(st1, metas.drop_first());
        assert(st1.errs.len() == st.errs.len());
        lemma_field_metas_mode_sticky(st1, metas.drop_first());
    }
}

/// As [`lemma_field_metas_error_free`], over whole attributes.
proof fn lemma_field_attrs_error_free(st: SpecFieldState, attrs: Seq<SpecAttr>)
    requires
        spec_field_attrs(st, attrs).errs.len() == st.errs.len(),
        !st.failed,
    ensures
        attrs_mention(attrs, "leaf"@) ==> spec_field_attrs(st, attrs).mode == FieldMode::Leaf,
        attrs_mention(attrs, "ignore"@) ==> spec_field_attrs(st, attrs).mode == FieldMode::Ignore,
        !spec_field_attrs(st, attrs).failed,
    decreases attrs.len(),
{
    reveal_strlit("leaf");
    reveal_strlit("ignore");
    if attrs.len() > 0 {
        let st1 = spec_field_attr_step(st, attrs[0]);
        lemma_field_attrs_extend(st1, attrs.drop_first());
        match attrs[0].kind {
            SpecAttrKind::Daft(d) => {
                lemma_field_metas_extend(st, d.metas);
                assert(st1.errs.len() == st.errs.len());
                lemma_field_metas_error_free(st, d.metas);
            },
            _ => {},
        }
        lemma_field_attrs_error_free(st1, attrs.drop_first());
        if st1.mode != FieldMode::Default {
            lemma_field_attrs_mode_sticky(st1, attrs.drop_first());
        }
        assert(forall|i: int|
            1 <= i < attrs.len() ==> attrs[i] == attrs.drop_first()[i - 1]);
    }
}

/// As [`lemma_field_metas_mode_sticky`], over whole attributes.
proof fn lemma_field_attrs_mode_sticky(st: SpecFieldState, attrs: Seq<SpecAttr>)
    requires
        spec_field_attrs(st, attrs).errs.len() == st.errs.len(),
        !st.failed,
        st.mode != FieldMode::Default,
    ensures
        spec_field_attrs(st, attrs).mode == st.mode,
        !spec_field_attrs(st, attrs).failed,
    decreases attrs.len(),
{
    reveal_strlit("leaf");
    reveal_strlit("ignore");
    if attrs.len() > 0 {
        let st1 = spec_field_attr_step(st, attrs[0]);
        lemma_field_attrs_extend(st1, attrs.drop_first());
        match attrs[0].kind {
            SpecAttrKind::Daft(d) => {
                lemma_field_metas_extend(st, d.metas);
                assert(st1.errs.len() == st.errs.len());
                lemma_field_metas_mode_sticky(st, d.metas);
                lemma_field_metas_error_free(st, d.metas);
            },
            _ => {},
        }
        lemma_field_attrs_mode_sticky(st1, attrs.drop_first());
    }
}

/// Mode resolution is mutually exclusive: requesting both `leaf` and
/// `ignore` on one field always reports at least one diagnostic, and by
/// the contract of [`FieldConfig::parse_from`] no configuration is then
/// produced. A produced configuration holds a single mode, so it can
/// never be leaf and ignore at once.
pub proof fn lemma_mutual_exclusion(attrs: Seq<SpecAttr>)
    ensures
        attrs_mention(attrs, "leaf"@) && attrs_mention(attrs, "ignore"@)
            ==> spec_field_parse(attrs).errs.len() > 0,
        spec_field_parse(attrs).mode == FieldMode::Leaf ==> spec_field_parse(attrs).mode
            != FieldMode::Ignore,
{
    if attrs_mention(attrs, "leaf"@) && attrs_mention(attrs, "ignore"@) {
        if spec_field_parse(attrs).errs.len() == 0 {
            lemma_field_attrs_error_free(spec_field_init(), attrs);
        }
    }
}

/// Mode resolution is a pure function of the annotations: re-parsing
/// the same attribute list appends the same diagnostics and resolves
/// the same configuration, whatever the invocation's store already
/// held when each run started.
pub proof fn lemma_mode_resolution_idempotent(
    attrs: Seq<SpecAttr>,
    prior1: Seq<SpecError>,
    prior2: Seq<SpecError>,
)
    ensures
        (prior1 + spec_field_parse(attrs).errs).skip(prior1.len() as int) == (prior2
            + spec_field_parse(attrs).errs).skip(prior2.len() as int),
{
    assert((prior1 + spec_field_parse(attrs).errs).skip(prior1.len() as int) =~= spec_field_parse(
        attrs,
    ).errs);
    assert((prior2 + spec_field_parse(attrs).errs).skip(prior2.len() as int) =~= spec_field_parse(
        attrs,
    ).errs);
}

/// Once a duplicate or conflict has been reported, the machine stops
/// tracking modes: further `leaf` and `ignore` names are skipped.
proof fn lemma_field_metas_failed_stable(st: SpecFieldState, metas: Seq<SpecNestedMeta>)
    requires
        st.failed,
        forall|i: int|
            0 <= i < metas.len() ==> (metas[i].name == "leaf"@ || metas[i].name == "ignore"@),
    ensures
        spec_field_metas(st, metas) == st,
    decreases metas.len(),
{
    reveal_strlit("leaf");
    reveal_strlit("ignore");
    if metas.len() > 0 {
        assert(metas[0].name == "leaf"@ || metas[0].name == "ignore"@);
        assert(forall|i: int|
            0 <= i < metas.drop_first().len() ==> metas.drop_first()[i] == metas[i + 1]);
        lemma_field_metas_failed_stable(spec_field_meta_step(st, metas[0]), metas.drop_first());
    }
}

/// Repeating one mode over and over on a field reports the duplicate
/// exactly once, and no configuration is produced: a `daft` annotation
/// whose names all request the same mode, two or more times, yields
/// precisely one "specified multiple times" diagnostic.
pub proof fn lemma_duplicate_reported_once(attrs: Seq<SpecAttr>, d: SpecDaftAttr, name: Seq<char>)
    requires
        attrs.len() == 1,
        attrs[0].kind == SpecAttrKind::Daft(d),
        d.issue is None,
        d.metas.len() >= 2,
        name == "leaf"@ || name == "ignore"@,
        forall|i: int| 0 <= i < d.metas.len() ==> d.metas[i].name == name,
    ensures
        spec_field_parse(attrs).errs.len() == 1,
        spec_field_parse(attrs).errs[0].kind == (if name == "leaf"@ {
            SpecErrorKind::DuplicateLeaf
        } else {
            SpecErrorKind::DuplicateIgnore
        }),
{
    reveal_with_fuel(spec_field_attrs, 2);
    reveal_with_fuel(spec_field_metas, 3);
    let st0 = spec_field_init();
    let st1 = spec_field_meta_step(st0, d.metas[0]);
    let st2 = spec_field_meta_step(st1, d.metas[1]);
    reveal_strlit("leaf");
    reveal_strlit("ignore");
    assert(st2.failed && st2.errs.len() == 1);
    assert(forall|i: int|
        0 <= i < d.metas.drop_first().drop_first().len() ==> d.metas.drop_first().drop_first()[i]
            == d.metas[i + 2]);
    lemma_field_metas_failed_stable(st2, d.metas.drop_first().drop_first());
    assert(spec_field_metas(st0, d.metas) == spec_field_metas(
        st2,
        d.metas.drop_first().drop_first(),
    ));
    assert(spec_field_parse(attrs) == spec_field_metas(st0, d.metas));
}

impl StructConfig {
    /// Parse one struct's attributes.
    ///
    /// Ordinary diagnostics are appended to `errors` in order; duplicate
    /// reports are appended after all of them. A configuration comes back
    /// exactly when no ordinary diagnostic was reported: a duplicate
    /// `leaf` alone is reported but does not invalidate the
    /// configuration.
    pub fn parse_from(attrs: &Vec<Attr>, errors: &mut ErrorStore<Error>) -> (config: Option<
        StructConfig,
    >)
        ensures
            deep_errs(final(errors)@) == deep_errs(old(errors)@) + spec_struct_parse(
                attrs.deep_view(),
            ).errs + spec_struct_parse(attrs.deep_view()).dups,
            config == (if spec_struct_parse(attrs.deep_view()).errs.len() == 0 {
                Some(StructConfig { mode: spec_struct_parse(attrs.deep_view()).mode })
            } else {
                None::<StructConfig>
            }),
    {
        let mark = errors.mark();
        let leaf_name = String::from_str("leaf");
        let mut duplicates: Vec<Error> = Vec::new();
        let mut mode = StructMode::Default;
        let mut dup_reported = false;
        let mut idx: usize = 0;
        while idx < attrs.len()
            invariant
                idx <= attrs.deep_view().len(),
                attrs.deep_view().len() == attrs@.len(),
                mark == old(errors)@.len(),
                leaf_name@ == "leaf"@,
                ({
                    let st = spec_struct_attrs(spec_struct_init(), attrs.deep_view().take(idx as int));
                    &&& mode == st.mode
                    &&& dup_reported == st.dup_reported
                    &&& deep_errs(errors@) == deep_errs(old(errors)@) + st.errs
                    &&& deep_errs(duplicates@) == st.dups
                }),
            decreases attrs@.len() - idx,
        {
            let ghost st0 = spec_struct_attrs(spec_struct_init(), attrs.deep_view().take(idx as int));
            let attr = &attrs[idx];
            assert(attr.deep_view() == attrs.deep_view()[idx as int]);
            match &attr.kind {
                AttrKind::Daft(d) => {
                    let mut j: usize = 0;
                    while j < d.metas.len()
                        invariant
                            j <= d.metas.deep_view().len(),
                            d.metas.deep_view().len() == d.metas@.len(),
                            leaf_name@ == "leaf"@,
                            ({
                                let st = spec_struct_metas(st0, d.metas.deep_view().take(j as int));
                                &&& mode == st.mode
                                &&& dup_reported == st.dup_reported
                                &&& deep_errs(errors@) == deep_errs(old(errors)@) + st.errs
                                &&& deep_errs(duplicates@) == st.dups
                            }),
                        decreases d.metas@.len() - j,
                    {
                        let m = &d.metas[j];
                        assert(m.deep_view() == d.metas.deep_view()[j as int]);
                        if m.name == leaf_name {
                            match mode {
                                StructMode::Default => {
                                    mode = StructMode::Leaf;
                                },
                                StructMode::Leaf => {
                                    if !dup_reported {
                                        dup_reported = true;
                                        let e = Error {
                                            span: m.span,
                                            kind: ErrorKind::DuplicateLeaf,
                                        };
                                        proof {
                                            lemma_deep_errs_push(duplicates@, e);
                                        }
                                        duplicates.push(e);
                                    }
                                },
                            }
                        } else {
                            let e = Error { span: m.span, kind: ErrorKind::UnknownStructAttr };
                            proof {
                                lemma_deep_errs_push(errors@, e);
                            }
                            errors.push(e);
                        }
                        proof {
                            lemma_struct_metas_snoc(st0, d.metas.deep_view().take(j as int), m.deep_view());
                            assert(d.metas.deep_view().take(j as int).push(m.deep_view())
                                =~= d.metas.deep_view().take(j + 1 as int));
                            let st = spec_struct_metas(st0, d.metas.deep_view().take(j + 1 as int));
                            assert(deep_errs(errors@) =~= deep_errs(old(errors)@) + st.errs);
                        }
                        j += 1;
                    }
                    proof {
                        assert(d.metas.deep_view().take(d.metas@.len() as int) =~= d.metas.deep_view());
                    }
                    match &d.issue {
                        Some(issue) => {
                            let e = Error {
                                span: issue.span,
                                kind: ErrorKind::Malformed(issue.message.clone()),
                            };
                            proof {
                                lemma_deep_errs_push(errors@, e);
                                let st = spec_struct_attr_step(st0, attr.deep_view());
                                assert(deep_errs(errors@).push(e.deep_view()) =~= deep_errs(
                                    old(errors)@,
                                ) + st.errs);
                            }
                            errors.push(e);
                        },
                        None => {},
                    }
                },
                AttrKind::NonExhaustive => {},
                AttrKind::Other => {},
            }
            proof {
                lemma_struct_attrs_snoc(
                    spec_struct_init(),
                    attrs.deep_view().take(idx as int),
                    attrs.deep_view()[idx as int],
                );
                assert(attrs.deep_view().take(idx as int).push(attrs.deep_view()[idx as int])
                    =~= attrs.deep_view().take(idx + 1 as int));
            }
            idx += 1;
        }
        proof {
            assert(attrs.deep_view().take(attrs@.len() as int) =~= attrs.deep_view());
        }
        let dirty = errors.has_errors_since(mark);
        let ghost st_final = spec_struct_parse(attrs.deep_view());
        let mut k: usize = 0;
        while k < duplicates.len()
            invariant
                k <= duplicates@.len(),
                deep_errs(duplicates@) == st_final.dups,
                deep_errs(errors@) == deep_errs(old(errors)@) + st_final.errs + st_final.dups.take(
                    k as int,
                ),
            decreases duplicates@.len() - k,
        {
            let e = duplicates[k].clone();
            proof {
                lemma_deep_errs_push(errors@, e);
                assert(st_final.dups.take(k as int).push(duplicates@[k as int].deep_view())
                    =~= st_final.dups.take(k + 1 as int));
            }
            errors.push(e);
            k += 1;
        }
        proof {
            assert(st_final.dups.take(duplicates@.len() as int) =~= st_final.dups);
        }
        if dirty {
            None
        } else {
            Some(StructConfig { mode })
        }
    }
}

impl FieldConfig {
    /// Parse one field's attributes.
    ///
    /// Every diagnostic of the run is appended to `errors`, in order. A
    /// configuration comes back exactly when the run reported nothing;
    /// its mode is the mode the machine ended in.
    pub fn parse_from(attrs: &Vec<Attr>, errors: &mut ErrorStore<Error>) -> (config: Option<
        FieldConfig,
    >)
        ensures
            deep_errs(final(errors)@) == deep_errs(old(errors)@) + spec_field_parse(
                attrs.deep_view(),
            ).errs,
            config == (if spec_field_parse(attrs.deep_view()).errs.len() == 0 {
                Some(FieldConfig { mode: spec_field_parse(attrs.deep_view()).mode })
            } else {
                None::<FieldConfig>
            }),
    {
        let mark = errors.mark();
        let leaf_name = String::from_str("leaf");
        let ignore_name = String::from_str("ignore");
        let mut mode = FieldMode::Default;
        let mut failed = false;
        let mut idx: usize = 0;
        while idx < attrs.len()
            invariant
                idx <= attrs.deep_view().len(),
                attrs.deep_view().len() == attrs@.len(),
                mark == old(errors)@.len(),
                leaf_name@ == "leaf"@,
                ignore_name@ == "ignore"@,
                ({
                    let st = spec_field_attrs(spec_field_init(), attrs.deep_view().take(idx as int));
                    &&& mode == st.mode
                    &&& failed == st.failed
                    &&& deep_errs(errors@) == deep_errs(old(errors)@) + st.errs
                }),
            decreases attrs@.len() - idx,
        {
            let ghost st0 = spec_field_attrs(spec_field_init(), attrs.deep_view().take(idx as int));
            let attr = &attrs[idx];
            assert(attr.deep_view() == attrs.deep_view()[idx as int]);
            match &attr.kind {
                AttrKind::Daft(d) => {
                    let mut j: usize = 0;
                    while j < d.metas.len()
                        invariant
                            j <= d.metas.deep_view().len(),
                            d.metas.deep_view().len() == d.metas@.len(),
                            leaf_name@ == "leaf"@,
                            ignore_name@ == "ignore"@,
                            ({
                                let st = spec_field_metas(st0, d.metas.deep_view().take(j as int));
                                &&& mode == st.mode
                                &&& failed == st.failed
                                &&& deep_errs(errors@) == deep_errs(old(errors)@) + st.errs
                            }),
                        decreases d.metas@.len() - j,
                    {
                        let ghost stj = spec_field_metas(st0, d.metas.deep_view().take(j as int));
                        let m = &d.metas[j];
                        assert(m.deep_view() == d.metas.deep_view()[j as int]);
                        if m.name == leaf_name {
                            if !failed {
                                match mode {
                                    FieldMode::Default => {
                                        mode = FieldMode::Leaf;
                                    },
                                    FieldMode::Leaf => {
                                        failed = true;
                                        let e = Error {
                                            span: m.span,
                                            kind: ErrorKind::DuplicateLeaf,
                                        };
                                        proof {
                                            lemma_deep_errs_push(errors@, e);
                                        }
                                        errors.push(e);
                                    },
                                    FieldMode::Ignore => {
                                        failed = true;
                                        let e = Error {
                                            span: m.span,
                                            kind: ErrorKind::ConflictLeaf,
                                        };
                                        proof {
                                            lemma_deep_errs_push(errors@, e);
                                        }
                                        errors.push(e);
                                    },
                                }
                            }
                        } else if m.name == ignore_name {
                            if !failed {
                                match mode {
                                    FieldMode::Default => {
                                        mode = FieldMode::Ignore;
                                    },
                                    FieldMode::Ignore => {
                                        failed = true;
                                        let e = Error {
                                            span: m.span,
                                            kind: ErrorKind::DuplicateIgnore,
                                        };
                                        proof {
                                            lemma_deep_errs_push(errors@, e);
                                        }
                                        errors.push(e);
                                    },
                                    FieldMode::Leaf => {
                                        failed = true;
                                        let e = Error {
                                            span: m.span,
                                            kind: ErrorKind::ConflictIgnore,
                                        };
                                        proof {
                                            lemma_deep_errs_push(errors@, e);
                                        }
                                        errors.push(e);
                                    },
                                }
                            }
                        } else {
                            let e = Error { span: m.span, kind: ErrorKind::UnknownFieldAttr };
                            proof {
                                lemma_deep_errs_push(errors@, e);
                            }
                            errors.push(e);
                        }
                        proof {
                            lemma_field_metas_snoc(st0, d.metas.deep_view().take(j as int), m.deep_view());
                            assert(d.metas.deep_view().take(j as int).push(m.deep_view())
                                =~= d.metas.deep_view().take(j + 1 as int));
                            let st = spec_field_metas(st0, d.metas.deep_view().take(j + 1 as int));
                            assert(deep_errs(errors@) =~= deep_errs(old(errors)@) + st.errs);
                        }
                        j += 1;
                    }
                    proof {
                        assert(d.metas.deep_view().take(d.metas@.len() as int) =~= d.metas.deep_view());
                    }
                    match &d.issue {
                        Some(issue) => {
                            let e = Error {
                                span: issue.span,
                                kind: ErrorKind::Malformed(issue.message.clone()),
                            };
                            proof {
                                lemma_deep_errs_push(errors@, e);
                                let st = spec_field_attr_step(st0, attr.deep_view());
                                assert(deep_errs(errors@).push(e.deep_view()) =~= deep_errs(
                                    old(errors)@,
                                ) + st.errs);
                            }
                            errors.push(e);
                        },
                        None => {},
                    }
                },
                AttrKind::NonExhaustive => {},
                AttrKind::Other => {},
            }
            proof {
                lemma_field_attrs_snoc(
                    spec_field_init(),
                    attrs.deep_view().take(idx as int),
                    attrs.deep_view()[idx as int],
                );
                assert(attrs.deep_view().take(idx as int).push(attrs.deep_view()[idx as int])
                    =~= attrs.deep_view().take(idx + 1 as int));
            }
            idx += 1;
        }
        proof {
            assert(attrs.deep_view().take(attrs@.len() as int) =~= attrs.deep_view());
        }
        if errors.has_errors_since(mark) {
            None
        } else {
            Some(FieldConfig { mode })
        }
    }
}

} // verus!
