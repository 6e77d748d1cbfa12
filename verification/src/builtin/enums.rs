//! The directive validators for enum nodes. No enum-level directive is
//! defined today: the kind's registry exists and works, but stays empty, as a
//! deliberate extension point.

use vstd::prelude::*;

use crate::dml::{Directive, DirectiveV, Enum, EnumV};
use crate::error::{new_validation_error, ValidationError, ValidationErrorV};
use crate::validator::DirectiveValidator;

verus! {

/// The validator slot for enum directives. No enum-level directive exists, so
/// this type has no values: the field of an uninhabited type makes it
/// impossible to construct, while the enum-kind registry remains a fully
/// working, empty registry.
pub struct EnumValidator {
    never: core::convert::Infallible,
}

impl DirectiveValidator for EnumValidator {
    type Node = Enum;

    open spec fn spec_name(&self) -> Seq<char> {
        Seq::empty()
    }

    open spec fn accepts(&self, node: EnumV, d: DirectiveV) -> bool {
        false
    }

    open spec fn rejection(&self, node: EnumV, d: DirectiveV) -> ValidationErrorV {
        ValidationErrorV {
            message: "no enum directive is defined"@,
            directive_name: d.name,
            node_name: node.name,
        }
    }

    open spec fn enriched(&self, node: EnumV, d: DirectiveV) -> EnumV {
        node
    }

    fn name(&self) -> (r: String) {
        String::new()
    }

    fn validate(&self, node: &Enum, d: &Directive) -> (r: Result<(), ValidationError>) {
        Err(new_validation_error("no enum directive is defined", &d.name, &node.name))
    }

    fn enrich(&self, node: &mut Enum, d: &Directive) {
    }

    proof fn enrich_preserves_structure(&self, node: EnumV, d: DirectiveV) {
    }
}

} // verus!
