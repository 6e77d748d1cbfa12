//! The builtin catalogs: one populated registry per node kind. These
//! factories are the single seam where the supported directive vocabulary of
//! each kind is declared; adding a directive means one registration here plus
//! one new validator.

use vstd::prelude::*;

pub mod enums;
pub mod field;
pub mod model;

use crate::builtin::enums::EnumValidator;
use crate::builtin::field::FieldValidator;
use crate::builtin::model::ModelValidator;
use crate::validator::{DirectiveListValidator, DirectiveValidator};

verus! {

/// The registration order of the builtin field catalog.
pub open spec fn builtin_field_validators() -> Seq<FieldValidator> {
    seq![
        FieldValidator::Db,
        FieldValidator::Primary,
        FieldValidator::ScalarList,
        FieldValidator::Sequence,
        FieldValidator::Unique,
        FieldValidator::DefaultValue,
        FieldValidator::Relation,
        FieldValidator::OnDelete,
    ]
}

/// The registration order of the builtin model catalog.
pub open spec fn builtin_model_validators() -> Seq<ModelValidator> {
    seq![ModelValidator::Db, ModelValidator::Embedded]
}

/// The registry holding every builtin field directive validator.
pub fn new_builtin_field_directives() -> (r: DirectiveListValidator<FieldValidator>)
    ensures
        r.wf(),
        r.validators() == builtin_field_validators(),
{
    proof {
        reveal_strlit("db");
        reveal_strlit("primary");
        reveal_strlit("scalarList");
        reveal_strlit("sequence");
        reveal_strlit("unique");
        reveal_strlit("default");
        reveal_strlit("relation");
        reveal_strlit("onDelete");
    }
    let mut validator = DirectiveListValidator::<FieldValidator>::new();
    validator.add(FieldValidator::Db);
    proof {
        assert(validator.validators()[0].spec_name() == "db"@);
    }
    validator.add(FieldValidator::Primary);
    proof {
        assert(validator.validators()[1].spec_name() == "primary"@);
    }
    validator.add(FieldValidator::ScalarList);
    proof {
        assert(validator.validators()[2].spec_name() == "scalarList"@);
    }
    validator.add(FieldValidator::Sequence);
    proof {
        assert(validator.validators()[3].spec_name() == "sequence"@);
    }
    validator.add(FieldValidator::Unique);
    proof {
        assert(validator.validators()[4].spec_name() == "unique"@);
    }
    proof {
        assert("default"@[0] != "primary"@[0]);
    }
    validator.add(FieldValidator::DefaultValue);
    proof {
        assert(validator.validators()[5].spec_name() == "default"@);
        assert("relation"@[0] != "sequence"@[0]);
    }
    validator.add(FieldValidator::Relation);
    proof {
        assert(validator.validators()[6].spec_name() == "relation"@);
        assert("onDelete"@[0] != "sequence"@[0]);
        assert("onDelete"@[0] != "relation"@[0]);
    }
    validator.add(FieldValidator::OnDelete);
    proof {
        assert(validator.validators() =~= builtin_field_validators());
    }
    validator
}

/// The registry holding every builtin model directive validator.
pub fn new_builtin_model_directives() -> (r: DirectiveListValidator<ModelValidator>)
    ensures
        r.wf(),
        r.validators() == builtin_model_validators(),
{
    proof {
        reveal_strlit("db");
        reveal_strlit("embedded");
    }
    let mut validator = DirectiveListValidator::<ModelValidator>::new();
    validator.add(ModelValidator::Db);
    proof {
        assert(validator.validators()[0].spec_name() == "db"@);
    }
    validator.add(ModelValidator::Embedded);
    proof {
        assert(validator.validators() =~= builtin_model_validators());
    }
    validator
}

/// Any registry of builtin field validators meets the hypotheses of
/// `lemma_validation_idempotent`: each builtin enrichment is idempotent and
/// touches its own part of the field's derived state, and each builtin check
/// reads only the directive and the field's structure.
pub proof fn lemma_field_catalog_lawful(reg: DirectiveListValidator<FieldValidator>)
    ensures
        crate::laws::enrich_idempotent(reg),
        crate::laws::enrich_commutes(reg),
        crate::laws::validation_is_structural(reg),
{
}

/// Any registry of builtin model validators meets the hypotheses of
/// `lemma_validation_idempotent`, as the field catalog does.
pub proof fn lemma_model_catalog_lawful(reg: DirectiveListValidator<ModelValidator>)
    ensures
        crate::laws::enrich_idempotent(reg),
        crate::laws::enrich_commutes(reg),
        crate::laws::validation_is_structural(reg),
{
}

/// The enum catalog meets the same hypotheses: with no enrichment defined,
/// every law holds trivially.
pub proof fn lemma_enum_catalog_lawful(reg: DirectiveListValidator<EnumValidator>)
    ensures
        crate::laws::enrich_idempotent(reg),
        crate::laws::enrich_commutes(reg),
        crate::laws::validation_is_structural(reg),
{
}

/// Re-validating a field that a registry of builtin validators has already
/// validated and enriched changes nothing, as long as the field's directive
/// names are pairwise distinct: the field stays as enriched and the same
/// errors are reported again.
pub proof fn lemma_builtin_field_validation_idempotent(
    reg: DirectiveListValidator<FieldValidator>,
    node: crate::dml::FieldV,
    dirs: Seq<crate::dml::DirectiveV>,
)
    requires
        reg.wf(),
        crate::laws::distinct_directive_names(dirs),
    ensures
        reg.run(reg.run(node, dirs).0, dirs) == reg.run(node, dirs),
{
    lemma_field_catalog_lawful(reg);
    crate::laws::lemma_validation_idempotent(reg, node, dirs);
}

/// Re-validating a model that a registry of builtin validators has already
/// validated and enriched changes nothing, as for fields.
pub proof fn lemma_builtin_model_validation_idempotent(
    reg: DirectiveListValidator<ModelValidator>,
    node: crate::dml::ModelV,
    dirs: Seq<crate::dml::DirectiveV>,
)
    requires
        reg.wf(),
        crate::laws::distinct_directive_names(dirs),
    ensures
        reg.run(reg.run(node, dirs).0, dirs) == reg.run(node, dirs),
{
    lemma_model_catalog_lawful(reg);
    crate::laws::lemma_validation_idempotent(reg, node, dirs);
}

/// The registry for enum directives: empty today, and still a fully working
/// registry — every directive on an enum node reports as unknown.
pub fn new_builtin_enum_directives() -> (r: DirectiveListValidator<EnumValidator>)
    ensures
        r.wf(),
        r.validators() == Seq::<EnumValidator>::empty(),
{
    DirectiveListValidator::<EnumValidator>::new()
}

} // verus!
