//! A directive validation framework for a data-model description language.
//!
//! A parsed schema is a set of nodes — fields, models and enums — each
//! carrying zero or more named directives. Per node kind a registry maps
//! directive names to pluggable validators; a validation pass dispatches every
//! directive attached to a node to its validator, collects every data error in
//! one pass, and enriches the node in place on success.

pub mod builtin;
pub mod dml;
pub mod error;
pub mod laws;
pub mod validator;
