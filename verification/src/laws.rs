//! The framework-level laws of the validation pass, proved once for every
//! registry and node kind: error/enrichment accounting, behaviour of the
//! empty catalog, independence from registration order, and idempotence of
//! re-validation.

use vstd::prelude::*;

use crate::dml::{DirectiveV, WithDirectives};
use crate::error::{unknown_directive_error, ValidationErrorV};
use crate::validator::{DirectiveListValidator, DirectiveValidator};

verus! {

/// Two nodes with the same name and the same attached directives.
pub open spec fn same_structure<V: DirectiveValidator>(
    a: <V::Node as View>::V,
    b: <V::Node as View>::V,
) -> bool {
    &&& <V::Node as WithDirectives>::spec_directives(a) == <V::Node as WithDirectives>::spec_directives(b)
    &&& <V::Node as WithDirectives>::spec_node_name(a) == <V::Node as WithDirectives>::spec_node_name(b)
}

/// A validation pass never changes a node's name or its attached directives:
/// enrichment only derives state.
pub proof fn lemma_run_preserves_structure<V: DirectiveValidator>(
    reg: DirectiveListValidator<V>,
    node: <V::Node as View>::V,
    dirs: Seq<DirectiveV>,
)
    ensures
        same_structure::<V>(reg.run(node, dirs).0, node),
    decreases dirs.len(),
{
    if dirs.len() == 0 {
    } else {
        let s = reg.step(node, dirs[0]);
        if reg.has_name(dirs[0].name) {
            let v = reg.spec_get(dirs[0].name);
            if v.accepts(node, dirs[0]) {
                v.enrich_preserves_structure(node, dirs[0]);
            }
        }
        lemma_run_preserves_structure(reg, s.0, dirs.drop_first());
    }
}

/// Whether the directive fails at this point of the pass: its name is not
/// registered, or its validator does not accept it on the current node.
pub open spec fn step_fails<V: DirectiveValidator>(
    reg: DirectiveListValidator<V>,
    node: <V::Node as View>::V,
    d: DirectiveV,
) -> bool {
    !reg.has_name(d.name) || !reg.spec_get(d.name).accepts(node, d)
}

/// How many of the directives fail over the pass.
pub open spec fn failure_count<V: DirectiveValidator>(
    reg: DirectiveListValidator<V>,
    node: <V::Node as View>::V,
    dirs: Seq<DirectiveV>,
) -> nat
    decreases dirs.len(),
{
    if dirs.len() == 0 {
        0
    } else {
        let c: nat = if step_fails(reg, node, dirs[0]) {
            1
        } else {
            0
        };
        c + failure_count(reg, reg.step(node, dirs[0]).0, dirs.drop_first())
    }
}

/// The errors of the failing directives, in directive order.
pub open spec fn failure_errors<V: DirectiveValidator>(
    reg: DirectiveListValidator<V>,
    node: <V::Node as View>::V,
    dirs: Seq<DirectiveV>,
) -> Seq<ValidationErrorV>
    decreases dirs.len(),
{
    if dirs.len() == 0 {
        Seq::empty()
    } else {
        let s = reg.step(node, dirs[0]);
        crate::validator::opt_err_seq(s.1) + failure_errors(reg, s.0, dirs.drop_first())
    }
}

/// The node enriched by exactly the successful directives, in order; failing
/// directives leave the node untouched.
pub open spec fn apply_successes<V: DirectiveValidator>(
    reg: DirectiveListValidator<V>,
    node: <V::Node as View>::V,
    dirs: Seq<DirectiveV>,
) -> <V::Node as View>::V
    decreases dirs.len(),
{
    if dirs.len() == 0 {
        node
    } else {
        let next = if step_fails(reg, node, dirs[0]) {
            node
        } else {
            reg.spec_get(dirs[0].name).enriched(node, dirs[0])
        };
        apply_successes(reg, next, dirs.drop_first())
    }
}

/// A pass over N directives of which M fail reports exactly M errors — one
/// per failing directive, in order — and enriches the node by exactly the
/// N − M successful directives.
pub proof fn lemma_one_error_per_failure<V: DirectiveValidator>(
    reg: DirectiveListValidator<V>,
    node: <V::Node as View>::V,
    dirs: Seq<DirectiveV>,
)
    ensures
        reg.run(node, dirs).1.len() == failure_count(reg, node, dirs),
        reg.run(node, dirs).1 == failure_errors(reg, node, dirs),
        reg.run(node, dirs).0 == apply_successes(reg, node, dirs),
    decreases dirs.len(),
{
    if dirs.len() == 0 {
    } else {
        let s = reg.step(node, dirs[0]);
        lemma_one_error_per_failure(reg, s.0, dirs.drop_first());
    }
}

/// A directive whose name is not registered yields exactly one
/// unknown-directive error naming it, and no enrichment at all.
pub proof fn lemma_unknown_directive<V: DirectiveValidator>(
    reg: DirectiveListValidator<V>,
    node: <V::Node as View>::V,
    d: DirectiveV,
)
    requires
        !reg.has_name(d.name),
    ensures
        reg.run(node, seq![d]).0 == node,
        reg.run(node, seq![d]).1 == seq![
            unknown_directive_error(d.name, <V::Node as WithDirectives>::spec_node_name(node)),
        ],
{
    let dirs = seq![d];
    assert(dirs.drop_first() =~= Seq::<DirectiveV>::empty());
    assert(reg.run(node, dirs.drop_first()).1 =~= Seq::<ValidationErrorV>::empty());
    assert(reg.run(node, dirs).1 =~= seq![
        unknown_directive_error(d.name, <V::Node as WithDirectives>::spec_node_name(node)),
    ]);
}

/// With an empty catalog — the enum kind today — every directive of every
/// node reports as unknown, and the node comes back untouched.
pub proof fn lemma_empty_catalog_rejects_all<V: DirectiveValidator>(
    reg: DirectiveListValidator<V>,
    node: <V::Node as View>::V,
    dirs: Seq<DirectiveV>,
)
    requires
        reg.validators().len() == 0,
    ensures
        reg.run(node, dirs).0 == node,
        reg.run(node, dirs).1 == dirs.map_values(
            |d: DirectiveV|
                unknown_directive_error(
                    d.name,
                    <V::Node as WithDirectives>::spec_node_name(node),
                ),
        ),
    decreases dirs.len(),
{
    let f = |d: DirectiveV|
        unknown_directive_error(d.name, <V::Node as WithDirectives>::spec_node_name(node));
    if dirs.len() == 0 {
        assert(dirs.map_values(f) =~= Seq::<ValidationErrorV>::empty());
    } else {
        lemma_empty_catalog_rejects_all(reg, node, dirs.drop_first());
        assert(dirs.map_values(f) =~= seq![f(dirs[0])] + dirs.drop_first().map_values(f));
    }
}

/// Two registries holding the same set of validators.
pub open spec fn same_validator_set<V: DirectiveValidator>(
    a: DirectiveListValidator<V>,
    b: DirectiveListValidator<V>,
) -> bool {
    forall|v: V| a.validators().contains(v) <==> b.validators().contains(v)
}

/// In two well-formed registries holding the same validators, every name
/// resolves identically.
pub proof fn lemma_lookup_agrees<V: DirectiveValidator>(
    a: DirectiveListValidator<V>,
    b: DirectiveListValidator<V>,
    name: Seq<char>,
)
    requires
        a.wf(),
        b.wf(),
        same_validator_set(a, b),
    ensures
        a.has_name(name) == b.has_name(name),
        a.has_name(name) ==> a.spec_get(name) == b.spec_get(name),
{
    if a.has_name(name) {
        a.lemma_spec_get(name);
        let v = a.spec_get(name);
        assert(b.validators().contains(v));
        let j = choose|j: int| 0 <= j < b.validators().len() && b.validators()[j] == v;
        assert(b.validators()[j].spec_name() == name);
        b.lemma_spec_get(name);
    }
    if b.has_name(name) {
        b.lemma_spec_get(name);
        let v = b.spec_get(name);
        assert(a.validators().contains(v));
        let j = choose|j: int| 0 <= j < a.validators().len() && a.validators()[j] == v;
        assert(a.validators()[j].spec_name() == name);
    }
}

/// Registering the same set of validators in any order yields catalogs with
/// identical validation behaviour on every node.
pub proof fn lemma_registration_order_irrelevant<V: DirectiveValidator>(
    a: DirectiveListValidator<V>,
    b: DirectiveListValidator<V>,
    node: <V::Node as View>::V,
    dirs: Seq<DirectiveV>,
)
    requires
        a.wf(),
        b.wf(),
        same_validator_set(a, b),
    ensures
        a.run(node, dirs) == b.run(node, dirs),
    decreases dirs.len(),
{
    if dirs.len() == 0 {
    } else {
        lemma_lookup_agrees(a, b, dirs[0].name);
        assert(a.step(node, dirs[0]) == b.step(node, dirs[0]));
        lemma_registration_order_irrelevant(a, b, a.step(node, dirs[0]).0, dirs.drop_first());
    }
}

/// Every registered validator's enrichment is idempotent: enriching twice
/// for one directive equals enriching once.
pub open spec fn enrich_idempotent<V: DirectiveValidator>(reg: DirectiveListValidator<V>) -> bool {
    forall|v: V, n: <V::Node as View>::V, d: DirectiveV|
        reg.validators().contains(v) ==> #[trigger] v.enriched(v.enriched(n, d), d)
            == v.enriched(n, d)
}

/// Enrichments of validators registered under different names commute: each
/// derives its own part of the node's state.
pub open spec fn enrich_commutes<V: DirectiveValidator>(reg: DirectiveListValidator<V>) -> bool {
    forall|v1: V, v2: V, n: <V::Node as View>::V, d1: DirectiveV, d2: DirectiveV|
        reg.validators().contains(v1) && reg.validators().contains(v2) && v1.spec_name()
            != v2.spec_name() ==> #[trigger] v1.enriched(v2.enriched(n, d2), d1) == v2.enriched(
            v1.enriched(n, d1),
            d2,
        )
}

/// Every registered validator judges a directive by the node's structure
/// alone — its name and attached directives — never by derived state.
pub open spec fn validation_is_structural<V: DirectiveValidator>(
    reg: DirectiveListValidator<V>,
) -> bool {
    forall|v: V, n1: <V::Node as View>::V, n2: <V::Node as View>::V, d: DirectiveV|
        #![trigger v.accepts(n1, d), v.accepts(n2, d)]
        reg.validators().contains(v) && same_structure::<V>(n1, n2) ==> v.accepts(n1, d)
            == v.accepts(n2, d) && v.rejection(n1, d) == v.rejection(n2, d)
}

/// The names of the attached directives are pairwise distinct.
pub open spec fn distinct_directive_names(dirs: Seq<DirectiveV>) -> bool {
    forall|i: int, j: int|
        #![trigger dirs[i].name, dirs[j].name]
        0 <= i < j < dirs.len() ==> dirs[i].name != dirs[j].name
}

/// Once a node absorbs an enrichment, a pass over directives with other
/// names cannot undo it.
proof fn lemma_absorb<V: DirectiveValidator>(
    reg: DirectiveListValidator<V>,
    v: V,
    d: DirectiveV,
    m: <V::Node as View>::V,
    rest: Seq<DirectiveV>,
)
    requires
        reg.wf(),
        enrich_idempotent(reg),
        enrich_commutes(reg),
        reg.validators().contains(v),
        d.name == v.spec_name(),
        v.enriched(m, d) == m,
        forall|k: int| 0 <= k < rest.len() ==> (#[trigger] rest[k].name) != d.name,
    ensures
        v.enriched(reg.run(m, rest).0, d) == reg.run(m, rest).0,
    decreases rest.len(),
{
    if rest.len() == 0 {
    } else {
        let h = rest[0];
        let s = reg.step(m, h);
        assert(h.name != d.name);
        if reg.has_name(h.name) {
            let w = reg.spec_get(h.name);
            reg.lemma_spec_get(h.name);
            if w.accepts(m, h) {
                assert(v.spec_name() != w.spec_name());
                assert(v.enriched(w.enriched(m, h), d) == w.enriched(v.enriched(m, d), h));
                assert(v.enriched(s.0, d) == s.0);
            }
        }
        assert forall|k: int| 0 <= k < rest.drop_first().len() implies (#[trigger] rest.drop_first()[k].name)
            != d.name by {
            assert(rest.drop_first()[k] == rest[k + 1]);
        }
        lemma_absorb(reg, v, d, s.0, rest.drop_first());
    }
}

/// Re-running a pass on an already validated and enriched node — enrichment
/// being idempotent, per-name local, and validation structural — changes
/// nothing: the node stays as enriched and the very same errors are reported
/// again. The directive names on the node must be pairwise distinct, so that
/// no validator enriches one node twice with different arguments.
pub proof fn lemma_validation_idempotent<V: DirectiveValidator>(
    reg: DirectiveListValidator<V>,
    node: <V::Node as View>::V,
    dirs: Seq<DirectiveV>,
)
    requires
        reg.wf(),
        enrich_idempotent(reg),
        enrich_commutes(reg),
        validation_is_structural(reg),
        distinct_directive_names(dirs),
    ensures
        reg.run(reg.run(node, dirs).0, dirs) == reg.run(node, dirs),
    decreases dirs.len(),
{
    if dirs.len() == 0 {
    } else {
        let d = dirs[0];
        let rest = dirs.drop_first();
        let first = reg.run(node, dirs);
        assert forall|i: int, j: int|
            #![trigger rest[i].name, rest[j].name]
            0 <= i < j < rest.len() implies rest[i].name != rest[j].name by {
            assert(rest[i] == dirs[i + 1]);
            assert(rest[j] == dirs[j + 1]);
        }
        assert forall|k: int| 0 <= k < rest.len() implies (#[trigger] rest[k].name) != d.name by {
            assert(rest[k] == dirs[k + 1]);
        }
        if !reg.has_name(d.name) {
            lemma_run_preserves_structure(reg, node, rest);
            lemma_validation_idempotent(reg, node, rest);
            assert(reg.step(first.0, d).1 == reg.step(node, d).1);
            assert(reg.run(first.0, dirs).1 == reg.run(node, dirs).1);
        } else {
            let v = reg.spec_get(d.name);
            reg.lemma_spec_get(d.name);
            if v.accepts(node, d) {
                let m = v.enriched(node, d);
                v.enrich_preserves_structure(node, d);
                lemma_run_preserves_structure(reg, m, rest);
                assert(same_structure::<V>(first.0, node));
                assert(v.accepts(first.0, d) == v.accepts(node, d));
                assert(v.enriched(m, d) == m);
                lemma_absorb(reg, v, d, m, rest);
                assert(v.enriched(first.0, d) == first.0);
                lemma_validation_idempotent(reg, m, rest);
                assert(reg.run(first.0, dirs).1 == reg.run(node, dirs).1);
            } else {
                lemma_run_preserves_structure(reg, node, rest);
                assert(same_structure::<V>(first.0, node));
                assert(v.accepts(first.0, d) == v.accepts(node, d));
                assert(v.rejection(first.0, d) == v.rejection(node, d));
                lemma_validation_idempotent(reg, node, rest);
                assert(reg.run(first.0, dirs).1 == reg.run(node, dirs).1);
            }
        }
    }
}

} // verus!
