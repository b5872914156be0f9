use builder::builder_spec::BuilderSpec;
use builder::ident::Identifier;
use builder::instance::{BuilderInstance, FieldValue, Value};
use builder::schema::{
    Data, DeriveInput, FieldDescriptor, Fields, PathSegment, TypeDescriptor, TypeShape,
};

fn plain(name: &str) -> TypeDescriptor {
    TypeDescriptor {
        tokens: name.parse().unwrap(),
        shape: TypeShape::Path(vec![PathSegment { ident: name.to_string(), arguments: vec![] }]),
    }
}

fn wrapped(name: &str, inner: TypeDescriptor) -> TypeDescriptor {
    TypeDescriptor {
        tokens: format!("{} < {} >", name, inner.tokens).parse().unwrap(),
        shape: TypeShape::Path(vec![
            PathSegment { ident: name.to_string(), arguments: vec![inner] },
        ]),
    }
}

fn field(name: &str, declared_type: TypeDescriptor) -> FieldDescriptor {
    FieldDescriptor { name: Identifier::new(name).unwrap(), declared_type }
}

fn structure(name: &str, fields: Vec<FieldDescriptor>) -> DeriveInput {
    DeriveInput { ident: Identifier::new(name).unwrap(), data: Data::Struct(Fields::Named(fields)) }
}

fn message() -> DeriveInput {
    structure(
        "Message",
        vec![
            field("name", plain("String")),
            field("tags", wrapped("Vec", plain("String"))),
            field("note", wrapped("Option", plain("String"))),
        ],
    )
}

fn fresh(input: &DeriveInput) -> BuilderInstance<&'static str> {
    BuilderInstance::new(&BuilderSpec::of(input))
}

fn set(instance: &mut BuilderInstance<&'static str>, name: &str, value: Value<&'static str>) {
    let place = instance.position(name).unwrap();
    instance.set(place, value);
}

#[test]
fn scenario_name_tags_note() {
    let input = message();
    let mut instance = fresh(&input);
    assert_eq!(instance.build(), Err("field name is not set".to_string()));

    set(&mut instance, "name", Value::One("x"));
    assert_eq!(
        instance.build(),
        Ok(vec![
            FieldValue::Mandatory(Value::One("x")),
            FieldValue::Repeated(Value::Many(vec![])),
            FieldValue::Optional(None),
        ])
    );

    set(&mut instance, "tags", Value::Many(vec!["a", "b"]));
    set(&mut instance, "note", Value::One("hi"));
    assert_eq!(
        instance.build(),
        Ok(vec![
            FieldValue::Mandatory(Value::One("x")),
            FieldValue::Repeated(Value::Many(vec!["a", "b"])),
            FieldValue::Optional(Some(Value::One("hi"))),
        ])
    );
}

#[test]
fn a_fresh_builder_with_a_mandatory_field_fails() {
    let input = structure(
        "S",
        vec![field("note", wrapped("Option", plain("u8"))), field("must", plain("u8"))],
    );
    let mut instance = fresh(&input);
    assert_eq!(instance.build(), Err("field must is not set".to_string()));
}

#[test]
fn the_first_missing_field_is_named() {
    let input = structure(
        "S",
        vec![field("a", plain("u8")), field("b", plain("u8")), field("c", plain("u8"))],
    );
    let mut instance = fresh(&input);
    assert_eq!(instance.build(), Err("field a is not set".to_string()));
    set(&mut instance, "a", Value::One("1"));
    assert_eq!(instance.build(), Err("field b is not set".to_string()));
    set(&mut instance, "c", Value::One("3"));
    assert_eq!(instance.build(), Err("field b is not set".to_string()));
    set(&mut instance, "b", Value::One("2"));
    assert_eq!(
        instance.build(),
        Ok(vec![
            FieldValue::Mandatory(Value::One("1")),
            FieldValue::Mandatory(Value::One("2")),
            FieldValue::Mandatory(Value::One("3")),
        ])
    );
}

#[test]
fn an_unset_optional_field_is_absent() {
    let input = structure("S", vec![field("note", wrapped("Option", plain("String")))]);
    let mut instance = fresh(&input);
    assert_eq!(instance.build(), Ok(vec![FieldValue::Optional(None)]));
}

#[test]
fn an_unset_repeated_field_is_an_empty_collection() {
    let input = structure("S", vec![field("tags", wrapped("Vec", plain("String")))]);
    let mut instance = fresh(&input);
    assert_eq!(instance.build(), Ok(vec![FieldValue::Repeated(Value::Many(vec![]))]));
}

#[test]
fn building_twice_gives_the_same_structure() {
    let input = message();
    let mut instance = fresh(&input);
    set(&mut instance, "name", Value::One("x"));
    set(&mut instance, "tags", Value::Many(vec!["a"]));
    let first = instance.build();
    let second = instance.build();
    assert!(first.is_ok());
    assert_eq!(first, second);
}

#[test]
fn a_failed_build_changes_nothing() {
    let input = message();
    let mut instance = fresh(&input);
    set(&mut instance, "note", Value::One("hi"));
    assert!(instance.build().is_err());
    assert!(instance.build().is_err());
    set(&mut instance, "name", Value::One("x"));
    assert_eq!(
        instance.build(),
        Ok(vec![
            FieldValue::Mandatory(Value::One("x")),
            FieldValue::Repeated(Value::Many(vec![])),
            FieldValue::Optional(Some(Value::One("hi"))),
        ])
    );
}

#[test]
fn the_second_value_replaces_the_first() {
    let input = message();
    let mut instance = fresh(&input);
    set(&mut instance, "name", Value::One("v1"));
    set(&mut instance, "name", Value::One("v2"));
    set(&mut instance, "tags", Value::Many(vec!["a", "b"]));
    set(&mut instance, "tags", Value::Many(vec!["c"]));
    set(&mut instance, "note", Value::One("n1"));
    set(&mut instance, "note", Value::One("n2"));
    assert_eq!(
        instance.build(),
        Ok(vec![
            FieldValue::Mandatory(Value::One("v2")),
            FieldValue::Repeated(Value::Many(vec!["c"])),
            FieldValue::Optional(Some(Value::One("n2"))),
        ])
    );
}

#[test]
fn a_builder_can_be_changed_after_a_build() {
    let input = message();
    let mut instance = fresh(&input);
    set(&mut instance, "name", Value::One("x"));
    let first = instance.build().unwrap();
    set(&mut instance, "name", Value::One("y"));
    let second = instance.build().unwrap();
    assert_eq!(first[0], FieldValue::Mandatory(Value::One("x")));
    assert_eq!(second[0], FieldValue::Mandatory(Value::One("y")));
}

#[test]
fn position_finds_a_field_by_its_name() {
    let input = message();
    let instance = fresh(&input);
    assert_eq!(instance.len(), 3);
    assert_eq!(instance.position("name"), Some(0));
    assert_eq!(instance.position("tags"), Some(1));
    assert_eq!(instance.position("note"), Some(2));
    assert_eq!(instance.position("nam"), None);
    assert_eq!(instance.position(""), None);
}

#[test]
fn a_builder_without_fields_builds_an_empty_structure() {
    let input = structure("Nothing", vec![]);
    let mut instance = fresh(&input);
    assert_eq!(instance.len(), 0);
    assert_eq!(instance.build(), Ok(vec![]));
}
