use datamodel::builtin::field::FieldValidator;
use datamodel::builtin::model::ModelValidator;
use datamodel::builtin::{
    new_builtin_enum_directives, new_builtin_field_directives, new_builtin_model_directives,
};
use datamodel::dml::{Directive, Field};
use datamodel::validator::DirectiveListValidator;

fn directive(name: &str) -> Directive {
    Directive { name: name.to_string(), arguments: Vec::new() }
}

#[test]
fn field_catalog_knows_every_builtin_directive() {
    let catalog = new_builtin_field_directives();
    for name in ["db", "primary", "scalarList", "sequence", "unique", "default", "relation",
        "onDelete"]
    {
        assert!(catalog.get(&name.to_string()).is_some(), "missing {name}");
    }
    assert!(catalog.get(&"embedded".to_string()).is_none());
}

#[test]
fn model_catalog_knows_every_builtin_directive() {
    let catalog = new_builtin_model_directives();
    assert!(catalog.get(&"db".to_string()).is_some());
    assert!(catalog.get(&"embedded".to_string()).is_some());
    assert!(catalog.get(&"unique".to_string()).is_none());
}

#[test]
fn enum_catalog_is_empty_but_functional() {
    let catalog = new_builtin_enum_directives();
    assert!(catalog.get(&"db".to_string()).is_none());
    assert!(catalog.get(&String::new()).is_none());
}

#[test]
fn duplicate_registration_fails_for_field_kind() {
    let mut catalog = DirectiveListValidator::<FieldValidator>::new();
    assert!(catalog.try_add(FieldValidator::Unique).is_ok());
    let err = catalog.try_add(FieldValidator::Unique).unwrap_err();
    assert_eq!(err.message, "duplicate directive validator");
    assert_eq!(err.directive_name, "unique");
    // The registry is unchanged: the name is still resolved, once.
    assert!(catalog.get(&"unique".to_string()).is_some());
    assert!(catalog.try_add(FieldValidator::Db).is_ok());
}

#[test]
fn duplicate_registration_fails_for_model_kind() {
    let mut catalog = DirectiveListValidator::<ModelValidator>::new();
    assert!(catalog.try_add(ModelValidator::Embedded).is_ok());
    assert!(catalog.try_add(ModelValidator::Db).is_ok());
    let err = catalog.try_add(ModelValidator::Db).unwrap_err();
    assert_eq!(err.directive_name, "db");
}

#[test]
fn registration_order_does_not_change_behaviour() {
    let mut forward = DirectiveListValidator::<FieldValidator>::new();
    forward.try_add(FieldValidator::Unique).unwrap();
    forward.try_add(FieldValidator::Primary).unwrap();
    forward.try_add(FieldValidator::Sequence).unwrap();

    let mut backward = DirectiveListValidator::<FieldValidator>::new();
    backward.try_add(FieldValidator::Sequence).unwrap();
    backward.try_add(FieldValidator::Primary).unwrap();
    backward.try_add(FieldValidator::Unique).unwrap();

    let directives = vec![directive("unique"), directive("madeup"), directive("sequence")];
    let mut left = Field::new("a".to_string(), directives.clone());
    let mut right = Field::new("a".to_string(), directives);

    let left_result = forward.validate(&mut left);
    let right_result = backward.validate(&mut right);

    assert_eq!(left_result, right_result);
    assert_eq!(left, right);
    assert!(left.is_unique && left.is_auto_increment && !left.is_id);
}
