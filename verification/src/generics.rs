//! Rewriting a declaration's generics around the fresh diff lifetime.
//!
//! The companion type borrows the before and after values for one
//! lifetime, so everything the original type is generic over must be
//! guaranteed to live at least that long: every declared lifetime
//! parameter and every declared type parameter gains one extra
//! "outlives the diff lifetime" bound, and the diff lifetime itself is
//! inserted as the first parameter of the list, a fixed convention that
//! downstream consumers rely on positionally. The `where` clause is
//! carried through unchanged.
//!
//! The diff lifetime's name starts with an underscore, a shape ordinary
//! source text does not use for lifetimes, so it cannot collide with a
//! lifetime the declaration's author wrote.

use vstd::prelude::*;
use vstd::string::StringExecFns;
use crate::ast::{
    clone_bounds, clone_strings, clone_where_clause, Bound, GenericParam, Generics, LifetimeParam,
    SpecBound, SpecGenericParam, SpecGenerics, SpecLifetimeParam, SpecTypeParam, TypeParam,
};

verus! {

/// The synthesized diff lifetime: named `'__daft`, with no bounds of
/// its own.
pub open spec fn spec_daft_lifetime() -> SpecLifetimeParam {
    SpecLifetimeParam { name: "__daft"@, bounds: Seq::empty() }
}

/// Create the diff lifetime parameter.
pub fn daft_lifetime() -> (lt: LifetimeParam)
    ensures
        lt.deep_view() == spec_daft_lifetime(),
{
    let lt = LifetimeParam { name: String::from_str("__daft"), bounds: Vec::new() };
    proof {
        assert(lt.deep_view().bounds =~= Seq::<Seq<char>>::empty());
    }
    lt
}

/// One parameter with the extra "outlives the diff lifetime" bound: a
/// lifetime parameter gains the diff lifetime among its bounds, a type
/// parameter gains an outlives bound on it, and a const parameter is
/// untouched.
pub open spec fn spec_add_lifetime_param(p: SpecGenericParam, lt: Seq<char>) -> SpecGenericParam {
    match p {
        SpecGenericParam::Lifetime(l) => SpecGenericParam::Lifetime(
            SpecLifetimeParam { name: l.name, bounds: l.bounds.push(lt) },
        ),
        SpecGenericParam::Type(t) => SpecGenericParam::Type(
            SpecTypeParam { bounds: t.bounds.push(SpecBound::Outlives(lt)), ..t },
        ),
        SpecGenericParam::Const(c) => SpecGenericParam::Const(c),
    }
}

/// The augmented generics: the diff lifetime first, then every original
/// parameter with its extra bound; the `where` clause unchanged.
pub open spec fn spec_add_lifetime(g: SpecGenerics, lt: SpecLifetimeParam) -> SpecGenerics {
    SpecGenerics {
        params: seq![SpecGenericParam::Lifetime(lt)] + g.params.map_values(
            |p: SpecGenericParam| spec_add_lifetime_param(p, lt.name),
        ),
        where_clause: g.where_clause,
    }
}

/// Augment a declaration's generics with the diff lifetime.
pub fn add_lifetime_to_generics(generics: &Generics, daft_lt: &LifetimeParam) -> (augmented:
    Generics)
    ensures
        augmented.deep_view() == spec_add_lifetime(generics.deep_view(), daft_lt.deep_view()),
{
    let ghost lt_name = daft_lt.deep_view().name;
    let mut params: Vec<GenericParam> = Vec::new();
    params.push(GenericParam::Lifetime(daft_lt.clone()));
    let mut i: usize = 0;
    while i < generics.params.len()
        invariant
            i <= generics.params@.len(),
            params@.len() == i + 1,
            params@[0].deep_view() == SpecGenericParam::Lifetime(daft_lt.deep_view()),
            lt_name == daft_lt.deep_view().name,
            forall|k: int|
                1 <= k < i + 1 ==> #[trigger] params@[k].deep_view() == spec_add_lifetime_param(
                    generics.params@[k - 1].deep_view(),
                    lt_name,
                ),
        decreases generics.params@.len() - i,
    {
        let bounded = match &generics.params[i] {
            GenericParam::Lifetime(l) => {
                let mut bounds = clone_strings(&l.bounds);
                bounds.push(daft_lt.name.clone());
                proof {
                    assert(bounds.deep_view() =~= l.bounds.deep_view().push(lt_name));
                }
                GenericParam::Lifetime(LifetimeParam { name: l.name.clone(), bounds })
            },
            GenericParam::Type(t) => {
                let mut bounds = clone_bounds(&t.bounds);
                bounds.push(Bound::Outlives(daft_lt.name.clone()));
                proof {
                    assert(bounds.deep_view() =~= t.bounds.deep_view().push(
                        SpecBound::Outlives(lt_name),
                    ));
                }
                let default = match &t.default {
                    Some(text) => Some(text.clone()),
                    None => None,
                };
                GenericParam::Type(TypeParam { name: t.name.clone(), bounds, default })
            },
            GenericParam::Const(c) => GenericParam::Const(c.clone()),
        };
        params.push(bounded);
        i += 1;
    }
    let augmented = Generics { params, where_clause: clone_where_clause(&generics.where_clause) };
    proof {
        let expected = spec_add_lifetime(generics.deep_view(), daft_lt.deep_view());
        assert forall|k: int| 0 <= k < augmented.params@.len() implies augmented.params.deep_view()[k]
            == expected.params[k] by {
            if k >= 1 {
                assert(augmented.params@[k].deep_view() == spec_add_lifetime_param(
                    generics.params@[k - 1].deep_view(),
                    lt_name,
                ));
                assert(generics.params.deep_view()[k - 1] == generics.params@[k - 1].deep_view());
            }
        }
        assert(augmented.params.deep_view() =~= expected.params);
    }
    augmented
}

/// The outlives invariant: in the augmented list the diff lifetime is
/// the first parameter, and each original parameter keeps its bound set
/// and gains exactly one extra bound, the one requiring it to outlive
/// the diff lifetime; const parameters and the `where` clause are
/// untouched.
pub proof fn lemma_outlives_invariant(g: SpecGenerics, lt: SpecLifetimeParam)
    ensures
        spec_add_lifetime(g, lt).params.len() == g.params.len() + 1,
        spec_add_lifetime(g, lt).params[0] == SpecGenericParam::Lifetime(lt),
        forall|i: int|
            0 <= i < g.params.len() ==> match (
                #[trigger] g.params[i],
                spec_add_lifetime(g, lt).params[i + 1],
            ) {
                (SpecGenericParam::Lifetime(l), SpecGenericParam::Lifetime(a)) => a.name == l.name
                    && a.bounds == l.bounds.push(lt.name),
                (SpecGenericParam::Type(t), SpecGenericParam::Type(a)) => a.name == t.name
                    && a.bounds == t.bounds.push(SpecBound::Outlives(lt.name)) && a.default
                    == t.default,
                (SpecGenericParam::Const(c), SpecGenericParam::Const(a)) => a == c,
                _ => false,
            },
        spec_add_lifetime(g, lt).where_clause == g.where_clause,
{
    assert forall|i: int| 0 <= i < g.params.len() implies match (
        #[trigger] g.params[i],
        spec_add_lifetime(g, lt).params[i + 1],
    ) {
        (SpecGenericParam::Lifetime(l), SpecGenericParam::Lifetime(a)) => a.name == l.name
            && a.bounds == l.bounds.push(lt.name),
        (SpecGenericParam::Type(t), SpecGenericParam::Type(a)) => a.name == t.name && a.bounds
            == t.bounds.push(SpecBound::Outlives(lt.name)) && a.default == t.default,
        (SpecGenericParam::Const(c), SpecGenericParam::Const(a)) => a == c,
        _ => false,
    } by {
        assert(spec_add_lifetime(g, lt).params[i + 1] == spec_add_lifetime_param(
            g.params[i],
            lt.name,
        ));
    }
}

} // verus!
