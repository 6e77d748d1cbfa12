//! The builtin directive validators for field nodes.

use vstd::prelude::*;

use crate::dml::{value_is_str, value_str, value_str_clone, Directive, DirectiveV, Field, FieldV};
use crate::error::{new_validation_error, ValidationError, ValidationErrorV};
use crate::validator::DirectiveValidator;

verus! {

/// The builtin validators for field directives, one per directive keyword:
/// database-name mapping, primary-key marker, scalar-list storage strategy,
/// sequence generation, uniqueness, default value, relation definition and
/// on-delete behaviour.
#[derive(Clone, Copy, Debug, PartialEq, Eq)]
pub enum FieldValidator {
    Db,
    Primary,
    ScalarList,
    Sequence,
    Unique,
    DefaultValue,
    Relation,
    OnDelete,
}

impl DirectiveValidator for FieldValidator {
    type Node = Field;

    open spec fn spec_name(&self) -> Seq<char> {
        match self {
            FieldValidator::Db => "db"@,
            FieldValidator::Primary => "primary"@,
            FieldValidator::ScalarList => "scalarList"@,
            FieldValidator::Sequence => "sequence"@,
            FieldValidator::Unique => "unique"@,
            FieldValidator::DefaultValue => "default"@,
            FieldValidator::Relation => "relation"@,
            FieldValidator::OnDelete => "onDelete"@,
        }
    }

    open spec fn accepts(&self, node: FieldV, d: DirectiveV) -> bool {
        match self {
            FieldValidator::Db => d.arguments.len() == 1 && d.arguments[0].value is Str,
            FieldValidator::Primary => d.arguments.len() == 0,
            FieldValidator::ScalarList => d.arguments.len() == 1 && d.arguments[0].value is Str,
            FieldValidator::Sequence => d.arguments.len() == 0,
            FieldValidator::Unique => d.arguments.len() == 0,
            FieldValidator::DefaultValue => d.arguments.len() == 1,
            FieldValidator::Relation => d.arguments.len() >= 1 && d.arguments[0].value is Str,
            FieldValidator::OnDelete => d.arguments.len() == 1 && d.arguments[0].value is Str,
        }
    }

    open spec fn rejection(&self, node: FieldV, d: DirectiveV) -> ValidationErrorV {
        ValidationErrorV {
            message: match self {
                FieldValidator::Db => "db takes a single string argument"@,
                FieldValidator::Primary => "primary takes no argument"@,
                FieldValidator::ScalarList => "scalarList takes a single string argument"@,
                FieldValidator::Sequence => "sequence takes no argument"@,
                FieldValidator::Unique => "unique takes no argument"@,
                FieldValidator::DefaultValue => "default takes a single argument"@,
                FieldValidator::Relation => "relation takes a leading string argument"@,
                FieldValidator::OnDelete => "onDelete takes a single string argument"@,
            },
            directive_name: d.name,
            node_name: node.name,
        }
    }

    open spec fn enriched(&self, node: FieldV, d: DirectiveV) -> FieldV {
        match self {
            FieldValidator::Db => FieldV {
                database_name: Some(value_str(d.arguments[0].value)),
                ..node
            },
            FieldValidator::Primary => FieldV { is_id: true, ..node },
            FieldValidator::ScalarList => FieldV {
                scalar_list_strategy: Some(value_str(d.arguments[0].value)),
                ..node
            },
            FieldValidator::Sequence => FieldV { is_auto_increment: true, ..node },
            FieldValidator::Unique => FieldV { is_unique: true, ..node },
            FieldValidator::DefaultValue => FieldV {
                default_value: Some(d.arguments[0].value),
                ..node
            },
            FieldValidator::Relation => FieldV {
                relation_target: Some(value_str(d.arguments[0].value)),
                ..node
            },
            FieldValidator::OnDelete => FieldV {
                on_delete_strategy: Some(value_str(d.arguments[0].value)),
                ..node
            },
        }
    }

    fn name(&self) -> (r: String) {
        match self {
            FieldValidator::Db => "db".to_owned(),
            FieldValidator::Primary => "primary".to_owned(),
            FieldValidator::ScalarList => "scalarList".to_owned(),
            FieldValidator::Sequence => "sequence".to_owned(),
            FieldValidator::Unique => "unique".to_owned(),
            FieldValidator::DefaultValue => "default".to_owned(),
            FieldValidator::Relation => "relation".to_owned(),
            FieldValidator::OnDelete => "onDelete".to_owned(),
        }
    }

    fn validate(&self, node: &Field, d: &Directive) -> (r: Result<(), ValidationError>) {
        match self {
            FieldValidator::Db => {
                if d.arguments.len() == 1 && value_is_str(&d.arguments[0].value) {
                    Ok(())
                } else {
                    Err(new_validation_error("db takes a single string argument", &d.name,
                        &node.name))
                }
            },
            FieldValidator::Primary => {
                if d.arguments.len() == 0 {
                    Ok(())
                } else {
                    Err(new_validation_error("primary takes no argument", &d.name, &node.name))
                }
            },
            FieldValidator::ScalarList => {
                if d.arguments.len() == 1 && value_is_str(&d.arguments[0].value) {
                    Ok(())
                } else {
                    Err(new_validation_error("scalarList takes a single string argument", &d.name,
                        &node.name))
                }
            },
            FieldValidator::Sequence => {
                if d.arguments.len() == 0 {
                    Ok(())
                } else {
                    Err(new_validation_error("sequence takes no argument", &d.name, &node.name))
                }
            },
            FieldValidator::Unique => {
                if d.arguments.len() == 0 {
                    Ok(())
                } else {
                    Err(new_validation_error("unique takes no argument", &d.name, &node.name))
                }
            },
            FieldValidator::DefaultValue => {
                if d.arguments.len() == 1 {
                    Ok(())
                } else {
                    Err(new_validation_error("default takes a single argument", &d.name,
                        &node.name))
                }
            },
            FieldValidator::Relation => {
                if d.arguments.len() >= 1 && value_is_str(&d.arguments[0].value) {
                    Ok(())
                } else {
                    Err(new_validation_error("relation takes a leading string argument", &d.name,
                        &node.name))
                }
            },
            FieldValidator::OnDelete => {
                if d.arguments.len() == 1 && value_is_str(&d.arguments[0].value) {
                    Ok(())
                } else {
                    Err(new_validation_error("onDelete takes a single string argument", &d.name,
                        &node.name))
                }
            },
        }
    }

    fn enrich(&self, node: &mut Field, d: &Directive) {
        match self {
            FieldValidator::Db => {
                node.database_name = Some(value_str_clone(&d.arguments[0].value));
            },
            FieldValidator::Primary => {
                node.is_id = true;
            },
            FieldValidator::ScalarList => {
                node.scalar_list_strategy = Some(value_str_clone(&d.arguments[0].value));
            },
            FieldValidator::Sequence => {
                node.is_auto_increment = true;
            },
            FieldValidator::Unique => {
                node.is_unique = true;
            },
            FieldValidator::DefaultValue => {
                node.default_value = Some(d.arguments[0].value.clone());
            },
            FieldValidator::Relation => {
                node.relation_target = Some(value_str_clone(&d.arguments[0].value));
            },
            FieldValidator::OnDelete => {
                node.on_delete_strategy = Some(value_str_clone(&d.arguments[0].value));
            },
        }
    }

    proof fn enrich_preserves_structure(&self, node: FieldV, d: DirectiveV) {
    }
}

} // verus!
