//! The validation protocol: the directive validator capability and the
//! per-node-kind registry that dispatches every directive attached to a node
//! to its registered validator, collecting every data error in one pass.

use vstd::prelude::*;

use crate::dml::{Directive, DirectiveV, WithDirectives};
use crate::error::{
    new_duplicate_name_error, new_unknown_directive_error, unknown_directive_error, CatalogError,
    ValidationError, ValidationErrorV,
};

verus! {

/// A named, stateless unit able to validate and enrich one directive on one
/// node kind. `validate` must not mutate; `enrich` runs only after a
/// successful `validate` and derives node state locally.
pub trait DirectiveValidator: Sized {
    /// The node kind this validator applies to.
    type Node: WithDirectives;

    /// The directive keyword this validator matches; the registry key.
    spec fn spec_name(&self) -> Seq<char>;

    /// Whether the directive is well-formed on this node.
    spec fn accepts(&self, node: <Self::Node as View>::V, d: DirectiveV) -> bool;

    /// The data error reported when the directive is not accepted.
    spec fn rejection(&self, node: <Self::Node as View>::V, d: DirectiveV) -> ValidationErrorV;

    /// The node after this validator's enrichment for the directive.
    spec fn enriched(
        &self,
        node: <Self::Node as View>::V,
        d: DirectiveV,
    ) -> <Self::Node as View>::V;

    /// The directive keyword this validator matches.
    fn name(&self) -> (r: String)
        ensures
            r@ == self.spec_name(),
    ;

    /// Checks the directive's arguments against the node; never mutates.
    fn validate(&self, node: &Self::Node, d: &Directive) -> (r: Result<(), ValidationError>)
        ensures
            r is Ok <==> self.accepts(node@, d@),
            r matches Err(e) ==> e@ == self.rejection(node@, d@),
    ;

    /// Derives node state for a directive that passed `validate`.
    fn enrich(&self, node: &mut Self::Node, d: &Directive)
        requires
            self.accepts(old(node)@, d@),
        ensures
            final(node)@ == self.enriched(old(node)@, d@),
    ;

    /// Enrichment only derives state: it never touches the node's identity or
    /// its attached directives.
    proof fn enrich_preserves_structure(&self, node: <Self::Node as View>::V, d: DirectiveV)
        ensures
            <Self::Node as WithDirectives>::spec_directives(self.enriched(node, d))
                == <Self::Node as WithDirectives>::spec_directives(node),
            <Self::Node as WithDirectives>::spec_node_name(self.enriched(node, d))
                == <Self::Node as WithDirectives>::spec_node_name(node),
    ;
}

/// The errors of one validation step, as a sequence: one error for a failed
/// step, none for a successful one.
pub open spec fn opt_err_seq(e: Option<ValidationErrorV>) -> Seq<ValidationErrorV> {
    match e {
        Some(x) => seq![x],
        None => Seq::empty(),
    }
}

/// The per-node-kind registry: a mapping from directive name to validator,
/// with names unique. Built once when a validation session starts and
/// read-only afterwards.
pub struct DirectiveListValidator<V> {
    known_directives: Vec<V>,
}

impl<V: DirectiveValidator> DirectiveListValidator<V> {
    /// The registered validators, in registration order.
    pub closed spec fn validators(&self) -> Seq<V> {
        self.known_directives@
    }

    /// Registered directive names are pairwise distinct.
    pub open spec fn wf(&self) -> bool {
        forall|i: int, j: int|
            #![trigger self.validators()[i].spec_name(), self.validators()[j].spec_name()]
            0 <= i < j < self.validators().len() ==> self.validators()[i].spec_name()
                != self.validators()[j].spec_name()
    }

    /// Whether some registered validator reports the given name.
    pub open spec fn has_name(&self, name: Seq<char>) -> bool {
        exists|i: int|
            0 <= i < self.validators().len() && (#[trigger] self.validators()[i].spec_name())
                == name
    }

    /// The index of the validator registered under the given name.
    pub open spec fn idx_of(&self, name: Seq<char>) -> int {
        choose|i: int|
            0 <= i < self.validators().len() && self.validators()[i].spec_name() == name
    }

    /// The validator registered under the given name.
    pub open spec fn spec_get(&self, name: Seq<char>) -> V {
        self.validators()[self.idx_of(name)]
    }

    /// In a well-formed registry the validator under a registered name is
    /// unique, carries that name, and is one of the registered validators.
    pub proof fn lemma_spec_get(&self, name: Seq<char>)
        requires
            self.wf(),
            self.has_name(name),
        ensures
            self.validators().contains(self.spec_get(name)),
            self.spec_get(name).spec_name() == name,
            forall|i: int|
                0 <= i < self.validators().len() && (#[trigger] self.validators()[i].spec_name())
                    == name ==> self.validators()[i] == self.spec_get(name),
    {
        let j = self.idx_of(name);
        assert(0 <= j < self.validators().len() && self.validators()[j].spec_name() == name);
        assert(self.validators().contains(self.spec_get(name)));
        assert forall|i: int|
            0 <= i < self.validators().len() && (#[trigger] self.validators()[i].spec_name())
                == name implies self.validators()[i] == self.spec_get(name) by {
            if i < j {
                assert(self.validators()[i].spec_name() != self.validators()[j].spec_name());
            } else if j < i {
                assert(self.validators()[j].spec_name() != self.validators()[i].spec_name());
            }
        }
    }

    /// One validation step: dispatch one directive against the registry,
    /// yielding the node afterwards and the error, if any.
    pub open spec fn step(&self, node: <V::Node as View>::V, d: DirectiveV) -> (
        <V::Node as View>::V,
        Option<ValidationErrorV>,
    ) {
        if !self.has_name(d.name) {
            (
                node,
                Some(
                    unknown_directive_error(
                        d.name,
                        <V::Node as WithDirectives>::spec_node_name(node),
                    ),
                ),
            )
        } else {
            let v = self.spec_get(d.name);
            if v.accepts(node, d) {
                (v.enriched(node, d), None)
            } else {
                (node, Some(v.rejection(node, d)))
            }
        }
    }

    /// A full validation pass over a directive list: every directive is
    /// dispatched in order, enrichment applies on success, and every error is
    /// collected — the pass never stops at the first failure.
    pub open spec fn run(&self, node: <V::Node as View>::V, dirs: Seq<DirectiveV>) -> (
        <V::Node as View>::V,
        Seq<ValidationErrorV>,
    )
        decreases dirs.len(),
    {
        if dirs.len() == 0 {
            (node, Seq::empty())
        } else {
            let s = self.step(node, dirs[0]);
            let rest = self.run(s.0, dirs.drop_first());
            (rest.0, opt_err_seq(s.1) + rest.1)
        }
    }

    /// An empty registry for one node kind. A kind may legitimately have no
    /// registered validators.
    pub fn new() -> (r: Self)
        ensures
            r.validators() == Seq::<V>::empty(),
            r.wf(),
    {
        DirectiveListValidator { known_directives: Vec::new() }
    }

    /// Registers a validator under its own reported name. A duplicate name is
    /// a catalog-wiring bug and is excluded by precondition; `try_add` is the
    /// total variant that reports it instead.
    pub fn add(&mut self, validator: V)
        requires
            old(self).wf(),
            !old(self).has_name(validator.spec_name()),
        ensures
            final(self).wf(),
            final(self).validators() == old(self).validators().push(validator),
    {
        self.known_directives.push(validator);
        proof {
            self.lemma_wf_after_push(*old(self), validator);
        }
    }

    /// Registers a validator under its own reported name, or reports a
    /// catalog error naming the duplicate directive name. The registry is
    /// unchanged exactly when the name was already registered.
    pub fn try_add(&mut self, validator: V) -> (r: Result<(), CatalogError>)
        requires
            old(self).wf(),
        ensures
            final(self).wf(),
            r is Ok <==> !old(self).has_name(validator.spec_name()),
            r is Ok ==> final(self).validators() == old(self).validators().push(validator),
            r is Err ==> final(self).validators() == old(self).validators(),
            r matches Err(e) ==> e.message@ == "duplicate directive validator"@
                && e.directive_name@ == validator.spec_name(),
    {
        let name = validator.name();
        let duplicate = self.get(&name).is_some();
        if duplicate {
            Err(new_duplicate_name_error(&name))
        } else {
            self.known_directives.push(validator);
            proof {
                self.lemma_wf_after_push(*old(self), validator);
            }
            Ok(())
        }
    }

    proof fn lemma_wf_after_push(&self, prev: Self, validator: V)
        requires
            prev.wf(),
            !prev.has_name(validator.spec_name()),
            self.validators() == prev.validators().push(validator),
        ensures
            self.wf(),
    {
        let vs = self.validators();
        let old_vs = prev.validators();
        assert forall|i: int, j: int|
            #![trigger vs[i].spec_name(), vs[j].spec_name()]
            0 <= i < j < vs.len() implies vs[i].spec_name() != vs[j].spec_name() by {
            if j < old_vs.len() {
                assert(old_vs[i].spec_name() != old_vs[j].spec_name());
            } else {
                assert(vs[j] == validator);
                if vs[i].spec_name() == validator.spec_name() {
                    assert(old_vs[i].spec_name() == validator.spec_name());
                    assert(prev.has_name(validator.spec_name()));
                }
            }
        }
    }

    /// Looks up the validator registered under the given directive name.
    pub fn get(&self, name: &String) -> (r: Option<&V>)
        requires
            self.wf(),
        ensures
            match r {
                Some(v) => self.has_name(name@) && *v == self.spec_get(name@),
                None => !self.has_name(name@),
            },
    {
        let n = self.known_directives.len();
        let mut i: usize = 0;
        while i < n
            invariant
                self.wf(),
                i <= n,
                n == self.validators().len(),
                forall|j: int|
                    0 <= j < i as int ==> (#[trigger] self.validators()[j].spec_name()) != name@,
            decreases n - i,
        {
            let v_name = self.known_directives[i].name();
            if v_name == *name {
                proof {
                    assert(self.validators()[i as int].spec_name() == name@);
                    self.lemma_spec_get(name@);
                }
                return Some(&self.known_directives[i]);
            }
            i += 1;
        }
        None
    }

    /// Validates every directive attached to the node, in order. Each
    /// directive is dispatched to the validator registered under its name:
    /// on success the node is enriched in place, on failure the validator's
    /// error is collected, and a directive with no registered validator
    /// contributes an unknown-directive error. All directives are processed
    /// even after a failure; `Ok` is returned exactly when no directive
    /// failed, and otherwise every error found, in directive order.
    pub fn validate(&self, node: &mut V::Node) -> (r: Result<(), Vec<ValidationError>>)
        requires
            self.wf(),
        ensures
            final(node)@ == self.run(
                old(node)@,
                <V::Node as WithDirectives>::spec_directives(old(node)@),
            ).0,
            r is Ok <==> self.run(
                old(node)@,
                <V::Node as WithDirectives>::spec_directives(old(node)@),
            ).1.len() == 0,
            r matches Err(es) ==> es@.map_values(|e: ValidationError| e@) == self.run(
                old(node)@,
                <V::Node as WithDirectives>::spec_directives(old(node)@),
            ).1 && es@.len() > 0,
    {
        let ghost orig = node@;
        let ghost dirs = <V::Node as WithDirectives>::spec_directives(node@);
        let mut errors: Vec<ValidationError> = Vec::new();
        let n = node.directives().len();
        proof {
            assert(n as int == dirs.len());
            assert(dirs.skip(0) =~= dirs);
        }
        let mut i: usize = 0;
        while i < n
            invariant
                self.wf(),
                i <= n,
                n as int == dirs.len(),
                <V::Node as WithDirectives>::spec_directives(node@) == dirs,
                <V::Node as WithDirectives>::spec_node_name(node@)
                    == <V::Node as WithDirectives>::spec_node_name(orig),
                self.run(orig, dirs).0 == self.run(node@, dirs.skip(i as int)).0,
                self.run(orig, dirs).1 == errors@.map_values(|e: ValidationError| e@) + self.run(
                    node@,
                    dirs.skip(i as int),
                ).1,
            decreases n - i,
        {
            let ghost pre = node@;
            let ghost remaining = dirs.skip(i as int);
            proof {
                assert(remaining.len() == dirs.len() - i as int);
                assert(remaining[0] == dirs[i as int]);
                assert(remaining.drop_first() =~= dirs.skip(i as int + 1));
            }
            let dv = node.directives();
            let d = dv[i].clone();
            proof {
                assert(dv@.map_values(|x: Directive| x@)[i as int] == dirs[i as int]);
                assert(d@ == dirs[i as int]);
            }
            match self.get(&d.name) {
                None => {
                    let ghost errs0 = errors@;
                    let err = new_unknown_directive_error(&d.name, node.node_name());
                    let ghost errv = err@;
                    errors.push(err);
                    proof {
                        assert(self.step(pre, d@) == (
                            pre,
                            Some(
                                unknown_directive_error(
                                    d@.name,
                                    <V::Node as WithDirectives>::spec_node_name(pre),
                                ),
                            ),
                        ));
                        self.lemma_invariant_step(
                            orig,
                            dirs,
                            i as int,
                            pre,
                            errs0.map_values(|e: ValidationError| e@),
                            errv,
                        );
                        assert(errors@.map_values(|e: ValidationError| e@) =~= errs0.map_values(
                            |e: ValidationError| e@,
                        ).push(errv));
                    }
                },
                Some(v) => {
                    match v.validate(node, &d) {
                        Ok(()) => {
                            v.enrich(node, &d);
                            proof {
                                v.enrich_preserves_structure(pre, d@);
                                assert(self.step(pre, d@) == (
                                    v.enriched(pre, d@),
                                    None::<ValidationErrorV>,
                                ));
                                self.lemma_invariant_step_ok(orig, dirs, i as int, pre, node@,
                                    errors@);
                            }
                        },
                        Err(e) => {
                            let ghost errs0 = errors@;
                            let ghost errv = e@;
                            errors.push(e);
                            proof {
                                assert(self.step(pre, d@) == (
                                    pre,
                                    Some(v.rejection(pre, d@)),
                                ));
                                self.lemma_invariant_step(
                                    orig,
                                    dirs,
                                    i as int,
                                    pre,
                                    errs0.map_values(|e2: ValidationError| e2@),
                                    errv,
                                );
                                assert(errors@.map_values(|e2: ValidationError| e2@)
                                    =~= errs0.map_values(|e2: ValidationError| e2@).push(errv));
                            }
                        },
                    }
                },
            }
            i += 1;
        }
        proof {
            assert(dirs.skip(n as int) =~= Seq::<DirectiveV>::empty());
            assert(self.run(node@, dirs.skip(n as int)).1 =~= Seq::<ValidationErrorV>::empty());
            assert(self.run(orig, dirs).1 =~= errors@.map_values(|e: ValidationError| e@));
        }
        if errors.len() == 0 {
            proof {
                assert(self.run(orig, dirs).1.len() == 0);
            }
            Ok(())
        } else {
            Err(errors)
        }
    }

    /// One loop step of `validate`, failing case: the step on `dirs[i]`
    /// produced an error and left the node unchanged.
    proof fn lemma_invariant_step(
        &self,
        orig: <V::Node as View>::V,
        dirs: Seq<DirectiveV>,
        i: int,
        pre: <V::Node as View>::V,
        prev_errvs: Seq<ValidationErrorV>,
        errv: ValidationErrorV,
    )
        requires
            0 <= i < dirs.len(),
            self.step(pre, dirs[i]).0 == pre,
            self.step(pre, dirs[i]).1 == Some(errv),
            self.run(orig, dirs).0 == self.run(pre, dirs.skip(i)).0,
            self.run(orig, dirs).1 == prev_errvs + self.run(pre, dirs.skip(i)).1,
        ensures
            self.run(orig, dirs).0 == self.run(pre, dirs.skip(i + 1)).0,
            self.run(orig, dirs).1 == prev_errvs.push(errv) + self.run(pre, dirs.skip(i + 1)).1,
    {
        let remaining = dirs.skip(i);
        assert(remaining.len() > 0);
        assert(remaining[0] == dirs[i]);
        assert(remaining.drop_first() =~= dirs.skip(i + 1));
        assert(self.run(pre, remaining).0 == self.run(pre, dirs.skip(i + 1)).0);
        assert(self.run(pre, remaining).1 == seq![errv] + self.run(pre, dirs.skip(i + 1)).1);
        assert(prev_errvs + (seq![errv] + self.run(pre, dirs.skip(i + 1)).1) =~= prev_errvs.push(
            errv,
        ) + self.run(pre, dirs.skip(i + 1)).1);
    }

    /// One loop step of `validate`, successful case: the step on `dirs[i]`
    /// enriched the node and produced no error.
    proof fn lemma_invariant_step_ok(
        &self,
        orig: <V::Node as View>::V,
        dirs: Seq<DirectiveV>,
        i: int,
        pre: <V::Node as View>::V,
        post: <V::Node as View>::V,
        errs: Seq<ValidationError>,
    )
        requires
            0 <= i < dirs.len(),
            self.step(pre, dirs[i]).0 == post,
            self.step(pre, dirs[i]).1 is None,
            self.run(orig, dirs).0 == self.run(pre, dirs.skip(i)).0,
            self.run(orig, dirs).1 == errs.map_values(|e: ValidationError| e@) + self.run(
                pre,
                dirs.skip(i),
            ).1,
        ensures
            self.run(orig, dirs).0 == self.run(post, dirs.skip(i + 1)).0,
            self.run(orig, dirs).1 == errs.map_values(|e: ValidationError| e@) + self.run(
                post,
                dirs.skip(i + 1),
            ).1,
    {
        let remaining = dirs.skip(i);
        assert(remaining.len() > 0);
        assert(remaining[0] == dirs[i]);
        assert(remaining.drop_first() =~= dirs.skip(i + 1));
        assert(self.run(pre, remaining).0 == self.run(post, dirs.skip(i + 1)).0);
        assert(self.run(pre, remaining).1 =~= self.run(post, dirs.skip(i + 1)).1);
    }
}

} // verus!
