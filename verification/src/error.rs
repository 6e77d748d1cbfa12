//! The two error classes of the framework: data errors reported by a
//! validation pass, and catalog errors raised when a registry is wired up.

use vstd::prelude::*;

verus! {

/// A data error found while validating one directive on one node. Data errors
/// are collected and returned; they never abort the pass.
#[derive(Debug, PartialEq, Eq)]
pub struct ValidationError {
    pub message: String,
    pub directive_name: String,
    pub node_name: String,
}

/// Mathematical view of `ValidationError`.
#[verifier::ext_equal]
pub struct ValidationErrorV {
    pub message: Seq<char>,
    pub directive_name: Seq<char>,
    pub node_name: Seq<char>,
}

impl View for ValidationError {
    type V = ValidationErrorV;

    open spec fn view(&self) -> ValidationErrorV {
        ValidationErrorV {
            message: self.message@,
            directive_name: self.directive_name@,
            node_name: self.node_name@,
        }
    }
}

/// Builds a data error for the given directive and node.
pub fn new_validation_error(message: &str, directive_name: &String, node_name: &String) -> (r:
    ValidationError)
    ensures
        r@ == (ValidationErrorV {
            message: message@,
            directive_name: directive_name@,
            node_name: node_name@,
        }),
{
    ValidationError {
        message: message.to_owned(),
        directive_name: directive_name.clone(),
        node_name: node_name.clone(),
    }
}

/// The error reported when a node carries a directive whose name no validator
/// of the node's kind claims.
pub open spec fn unknown_directive_error(
    directive_name: Seq<char>,
    node_name: Seq<char>,
) -> ValidationErrorV {
    ValidationErrorV { message: "unknown directive"@, directive_name, node_name }
}

/// Builds the unknown-directive error for the given directive and node.
pub fn new_unknown_directive_error(directive_name: &String, node_name: &String) -> (r:
    ValidationError)
    ensures
        r@ == unknown_directive_error(directive_name@, node_name@),
{
    ValidationError {
        message: "unknown directive".to_owned(),
        directive_name: directive_name.clone(),
        node_name: node_name.clone(),
    }
}

/// A catalog error: the registry was asked to hold two validators under one
/// name. This is a wiring bug of the catalog, never a property of the schema
/// under validation.
#[derive(Debug, PartialEq, Eq)]
pub struct CatalogError {
    pub message: String,
    pub directive_name: String,
}

/// Builds the duplicate-name catalog error for the given directive name.
pub fn new_duplicate_name_error(directive_name: &String) -> (r: CatalogError)
    ensures
        r.message@ == "duplicate directive validator"@,
        r.directive_name@ == directive_name@,
{
    CatalogError {
        message: "duplicate directive validator".to_owned(),
        directive_name: directive_name.clone(),
    }
}

} // verus!
