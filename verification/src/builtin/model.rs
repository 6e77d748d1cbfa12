//! The builtin directive validators for model nodes.

use vstd::prelude::*;

use crate::dml::{value_is_str, value_str, value_str_clone, Directive, DirectiveV, Model, ModelV};
use crate::error::{new_validation_error, ValidationError, ValidationErrorV};
use crate::validator::DirectiveValidator;

verus! {

/// The builtin validators for model directives: database-name mapping and the
/// embedding marker.
#[derive(Clone, Copy, Debug, PartialEq, Eq)]
pub enum ModelValidator {
    Db,
    Embedded,
}

impl DirectiveValidator for ModelValidator {
    type Node = Model;

    open spec fn spec_name(&self) -> Seq<char> {
        match self {
            ModelValidator::Db => "db"@,
            ModelValidator::Embedded => "embedded"@,
        }
    }

    open spec fn accepts(&self, node: ModelV, d: DirectiveV) -> bool {
        match self {
            ModelValidator::Db => d.arguments.len() == 1 && d.arguments[0].value is Str,
            ModelValidator::Embedded => d.arguments.len() == 0,
        }
    }

    open spec fn rejection(&self, node: ModelV, d: DirectiveV) -> ValidationErrorV {
        ValidationErrorV {
            message: match self {
                ModelValidator::Db => "db takes a single string argument"@,
                ModelValidator::Embedded => "embedded takes no argument"@,
            },
            directive_name: d.name,
            node_name: node.name,
        }
    }

    open spec fn enriched(&self, node: ModelV, d: DirectiveV) -> ModelV {
        match self {
            ModelValidator::Db => ModelV {
                database_name: Some(value_str(d.arguments[0].value)),
                ..node
            },
            ModelValidator::Embedded => ModelV { is_embedded: true, ..node },
        }
    }

    fn name(&self) -> (r: String) {
        match self {
            ModelValidator::Db => "db".to_owned(),
            ModelValidator::Embedded => "embedded".to_owned(),
        }
    }

    fn validate(&self, node: &Model, d: &Directive) -> (r: Result<(), ValidationError>) {
        match self {
            ModelValidator::Db => {
                if d.arguments.len() == 1 && value_is_str(&d.arguments[0].value) {
                    Ok(())
                } else {
                    Err(new_validation_error("db takes a single string argument", &d.name,
                        &node.name))
                }
            },
            ModelValidator::Embedded => {
                if d.arguments.len() == 0 {
                    Ok(())
                } else {
                    Err(new_validation_error("embedded takes no argument", &d.name, &node.name))
                }
            },
        }
    }

    fn enrich(&self, node: &mut Model, d: &Directive) {
        match self {
            ModelValidator::Db => {
                node.database_name = Some(value_str_clone(&d.arguments[0].value));
            },
            ModelValidator::Embedded => {
                node.is_embedded = true;
            },
        }
    }

    proof fn enrich_preserves_structure(&self, node: ModelV, d: DirectiveV) {
    }
}

} // verus!
