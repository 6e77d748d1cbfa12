use datamodel::builtin::{
    new_builtin_enum_directives, new_builtin_field_directives, new_builtin_model_directives,
};
use datamodel::dml::{Argument, Directive, Enum, Field, Model, Value};

fn directive(name: &str) -> Directive {
    Directive { name: name.to_string(), arguments: Vec::new() }
}

fn directive_with(name: &str, arguments: Vec<Argument>) -> Directive {
    Directive { name: name.to_string(), arguments }
}

fn named_arg(name: &str, value: Value) -> Argument {
    Argument { name: Some(name.to_string()), value }
}

fn arg(value: Value) -> Argument {
    Argument { name: None, value }
}

#[test]
fn field_without_directives_validates_unchanged() {
    let catalog = new_builtin_field_directives();
    let mut field = Field::new("id".to_string(), Vec::new());
    assert!(catalog.validate(&mut field).is_ok());
    assert_eq!(field, Field::new("id".to_string(), Vec::new()));
}

#[test]
fn unique_and_default_enrich_the_field() {
    let catalog = new_builtin_field_directives();
    let directives = vec![
        directive("unique"),
        directive_with("default", vec![named_arg("value", Value::Int(1))]),
    ];
    let mut field = Field::new("age".to_string(), directives);
    assert!(catalog.validate(&mut field).is_ok());
    assert!(field.is_unique);
    assert_eq!(field.default_value, Some(Value::Int(1)));
    assert!(!field.is_id);
    assert!(field.database_name.is_none());
}

#[test]
fn unregistered_directive_reports_one_error() {
    let catalog = new_builtin_field_directives();
    let mut field = Field::new("age".to_string(), vec![directive("madeup")]);
    let errors = catalog.validate(&mut field).unwrap_err();
    assert_eq!(errors.len(), 1);
    assert_eq!(errors[0].message, "unknown directive");
    assert_eq!(errors[0].directive_name, "madeup");
    assert_eq!(errors[0].node_name, "age");
    // No enrichment was applied.
    assert_eq!(field, Field::new("age".to_string(), vec![directive("madeup")]));
}

#[test]
fn one_error_per_failing_directive_and_success_still_enriches() {
    let catalog = new_builtin_field_directives();
    let directives = vec![
        directive_with("primary", vec![arg(Value::Int(3))]),  // fails: takes no argument
        directive("unique"),                                  // succeeds
        directive("madeup"),                                  // fails: unknown
        directive_with("db", vec![arg(Value::Str("col".to_string()))]),  // succeeds
    ];
    let mut field = Field::new("age".to_string(), directives);
    let errors = catalog.validate(&mut field).unwrap_err();
    assert_eq!(errors.len(), 2);
    assert_eq!(errors[0].message, "primary takes no argument");
    assert_eq!(errors[0].directive_name, "primary");
    assert_eq!(errors[1].message, "unknown directive");
    assert_eq!(errors[1].directive_name, "madeup");
    // Exactly the successful directives enriched the node.
    assert!(field.is_unique);
    assert!(!field.is_id);
    assert_eq!(field.database_name, Some("col".to_string()));
}

#[test]
fn each_field_directive_enriches_its_own_state() {
    let catalog = new_builtin_field_directives();
    let directives = vec![
        directive_with("db", vec![arg(Value::Str("col".to_string()))]),
        directive("primary"),
        directive_with("scalarList", vec![arg(Value::Str("EMBEDDED".to_string()))]),
        directive("sequence"),
        directive("unique"),
        directive_with("default", vec![arg(Value::Bool(true))]),
        directive_with("relation", vec![arg(Value::Str("User".to_string()))]),
        directive_with("onDelete", vec![arg(Value::Str("CASCADE".to_string()))]),
    ];
    let mut field = Field::new("posts".to_string(), directives);
    assert!(catalog.validate(&mut field).is_ok());
    assert_eq!(field.database_name, Some("col".to_string()));
    assert!(field.is_id);
    assert_eq!(field.scalar_list_strategy, Some("EMBEDDED".to_string()));
    assert!(field.is_auto_increment);
    assert!(field.is_unique);
    assert_eq!(field.default_value, Some(Value::Bool(true)));
    assert_eq!(field.relation_target, Some("User".to_string()));
    assert_eq!(field.on_delete_strategy, Some("CASCADE".to_string()));
}

#[test]
fn each_field_directive_rejects_bad_arguments() {
    let catalog = new_builtin_field_directives();
    let cases = [
        (directive_with("db", vec![arg(Value::Int(1))]), "db takes a single string argument"),
        (directive_with("primary", vec![arg(Value::Int(1))]), "primary takes no argument"),
        (directive("scalarList"), "scalarList takes a single string argument"),
        (directive_with("sequence", vec![arg(Value::Int(1))]), "sequence takes no argument"),
        (directive_with("unique", vec![arg(Value::Int(1))]), "unique takes no argument"),
        (directive("default"), "default takes a single argument"),
        (directive("relation"), "relation takes a leading string argument"),
        (directive_with("onDelete", vec![arg(Value::Int(1))]),
            "onDelete takes a single string argument"),
    ];
    for (bad, message) in cases {
        let mut field = Field::new("age".to_string(), vec![bad.clone()]);
        let errors = catalog.validate(&mut field).unwrap_err();
        assert_eq!(errors.len(), 1, "directive {}", bad.name);
        assert_eq!(errors[0].message, message);
        // A failed directive applies no enrichment.
        assert_eq!(field, Field::new("age".to_string(), vec![bad]));
    }
}

#[test]
fn validation_is_idempotent_on_an_enriched_field() {
    let catalog = new_builtin_field_directives();
    let directives = vec![
        directive("unique"),
        directive_with("default", vec![named_arg("value", Value::Int(1))]),
        directive("madeup"),
    ];
    let mut field = Field::new("age".to_string(), directives);

    let first = catalog.validate(&mut field);
    let snapshot = field.clone();
    let second = catalog.validate(&mut field);

    assert_eq!(first, second);
    assert_eq!(snapshot, field.clone());
}

#[test]
fn model_directives_validate_and_enrich() {
    let catalog = new_builtin_model_directives();
    let directives = vec![
        directive_with("db", vec![arg(Value::Str("users".to_string()))]),
        directive("embedded"),
    ];
    let mut model = Model::new("User".to_string(), directives);
    assert!(catalog.validate(&mut model).is_ok());
    assert_eq!(model.database_name, Some("users".to_string()));
    assert!(model.is_embedded);
}

#[test]
fn model_directives_report_failures() {
    let catalog = new_builtin_model_directives();
    let directives = vec![directive_with("embedded", vec![arg(Value::Int(1))]),
        directive("unique")];
    let mut model = Model::new("User".to_string(), directives);
    let errors = catalog.validate(&mut model).unwrap_err();
    assert_eq!(errors.len(), 2);
    assert_eq!(errors[0].message, "embedded takes no argument");
    assert_eq!(errors[0].node_name, "User");
    assert_eq!(errors[1].message, "unknown directive");
    assert_eq!(errors[1].directive_name, "unique");
    assert!(!model.is_embedded);
}

#[test]
fn any_directive_on_an_enum_is_unknown() {
    let catalog = new_builtin_enum_directives();
    let directives = vec![directive_with("db", vec![arg(Value::Str("x".to_string()))])];
    let mut node = Enum::new(
        "Color".to_string(),
        vec!["RED".to_string(), "BLUE".to_string()],
        directives,
    );
    let errors = catalog.validate(&mut node).unwrap_err();
    assert_eq!(errors.len(), 1);
    assert_eq!(errors[0].message, "unknown directive");
    assert_eq!(errors[0].directive_name, "db");
    assert_eq!(errors[0].node_name, "Color");
}

#[test]
fn enum_without_directives_validates() {
    let catalog = new_builtin_enum_directives();
    let mut node = Enum::new("Color".to_string(), vec!["RED".to_string()], Vec::new());
    assert!(catalog.validate(&mut node).is_ok());
}
