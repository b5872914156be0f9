use builder::builder_spec::{BuilderSpec, ClassifiedField};
use builder::classify::{classify, is_option, is_vector, Category, TypeClassification};
use builder::ident::Identifier;
use builder::schema::{
    extract_fields, extract_type, Data, DeriveInput, FieldDescriptor, Fields, PathSegment,
    TypeDescriptor, TypeShape,
};

fn segment(name: &str, arguments: Vec<TypeDescriptor>) -> PathSegment {
    PathSegment { ident: name.to_string(), arguments }
}

fn path(text: &str, segments: Vec<PathSegment>) -> TypeDescriptor {
    TypeDescriptor { tokens: text.parse().unwrap(), shape: TypeShape::Path(segments) }
}

fn plain(name: &str) -> TypeDescriptor {
    path(name, vec![segment(name, vec![])])
}

fn category(ty: &TypeDescriptor) -> Category {
    classify(ty).category()
}

#[test]
fn a_plain_type_is_mandatory() {
    let ty = plain("String");
    assert!(matches!(classify(&ty), TypeClassification::Mandatory));
    assert!(!is_option(&ty));
    assert!(!is_vector(&ty));
}

#[test]
fn an_option_is_optional_with_its_argument() {
    let ty = path("Option < String >", vec![segment("Option", vec![plain("String")])]);
    match classify(&ty) {
        TypeClassification::Optional(inner) => assert_eq!(inner.tokens.to_string(), "String"),
        other => panic!("not optional: {:?}", other),
    }
    assert!(is_option(&ty));
    assert!(!is_vector(&ty));
}

#[test]
fn a_vec_is_repeated_with_its_element() {
    let ty = path("Vec < u8 >", vec![segment("Vec", vec![plain("u8")])]);
    match classify(&ty) {
        TypeClassification::Repeated(element) => assert_eq!(element.tokens.to_string(), "u8"),
        other => panic!("not repeated: {:?}", other),
    }
    assert!(is_vector(&ty));
    assert!(!is_option(&ty));
}

#[test]
fn only_the_last_segment_counts() {
    let ty = path(
        "std :: option :: Option < u8 >",
        vec![
            segment("std", vec![]),
            segment("option", vec![]),
            segment("Option", vec![plain("u8")]),
        ],
    );
    assert_eq!(category(&ty), Category::Optional);
    let ty = path(
        "Option :: Inner",
        vec![segment("Option", vec![plain("u8")]), segment("Inner", vec![])],
    );
    assert_eq!(category(&ty), Category::Mandatory);
}

#[test]
fn a_wrapper_needs_exactly_one_argument() {
    let none = path("Option", vec![segment("Option", vec![])]);
    assert_eq!(category(&none), Category::Mandatory);
    let two = path("Vec < u8 , u8 >", vec![segment("Vec", vec![plain("u8"), plain("u8")])]);
    assert_eq!(category(&two), Category::Mandatory);
    assert!(!is_vector(&two));
    assert!(!is_option(&none));
}

#[test]
fn an_alias_of_option_is_mandatory() {
    let ty = path("Maybe < u8 >", vec![segment("Maybe", vec![plain("u8")])]);
    assert_eq!(category(&ty), Category::Mandatory);
}

#[test]
fn the_name_is_matched_exactly() {
    for name in ["option", "Optional", "Optio", "vec", "Vector", "VecDeque"] {
        let ty = path(&format!("{} < u8 >", name), vec![segment(name, vec![plain("u8")])]);
        assert_eq!(category(&ty), Category::Mandatory, "{}", name);
    }
}

#[test]
fn only_one_level_is_read() {
    let inner = path("Vec < u8 >", vec![segment("Vec", vec![plain("u8")])]);
    let ty = path("Option < Vec < u8 > >", vec![segment("Option", vec![inner])]);
    match classify(&ty) {
        TypeClassification::Optional(inner) => {
            assert_eq!(inner.tokens.to_string(), "Vec < u8 >")
        },
        other => panic!("not optional: {:?}", other),
    }
}

#[test]
fn a_type_that_is_no_path_is_mandatory() {
    let ty = TypeDescriptor { tokens: "& str".parse().unwrap(), shape: TypeShape::Other };
    assert_eq!(category(&ty), Category::Mandatory);
    assert!(extract_type(&ty).is_none());
}

#[test]
fn extract_type_gives_the_last_segment() {
    let ty = path("a :: b :: C", vec![segment("a", vec![]), segment("b", vec![]), segment("C", vec![])]);
    assert_eq!(extract_type(&ty).unwrap().ident, "C");
    let empty = path("", vec![]);
    assert!(extract_type(&empty).is_none());
    assert_eq!(category(&empty), Category::Mandatory);
}

#[test]
fn extract_fields_gives_the_named_fields() {
    let data = Data::Struct(Fields::Named(vec![
        FieldDescriptor { name: Identifier::new("a").unwrap(), declared_type: plain("u8") },
        FieldDescriptor { name: Identifier::new("b").unwrap(), declared_type: plain("u8") },
    ]));
    assert!(data.has_named_fields());
    let fields = extract_fields(&data);
    assert_eq!(fields.len(), 2);
    assert_eq!(fields[0].name.as_str(), "a");
    assert_eq!(fields[1].name.as_str(), "b");
}

#[test]
fn only_a_structure_with_named_fields_is_supported() {
    assert!(Data::Struct(Fields::Named(vec![])).has_named_fields());
    assert!(!Data::Struct(Fields::Unnamed).has_named_fields());
    assert!(!Data::Struct(Fields::Unit).has_named_fields());
    assert!(!Data::Enum.has_named_fields());
    assert!(!Data::Union.has_named_fields());
}

#[test]
fn builder_spec_classifies_each_field_in_order() {
    let input = DeriveInput {
        ident: Identifier::new("Message").unwrap(),
        data: Data::Struct(Fields::Named(vec![
            FieldDescriptor { name: Identifier::new("name").unwrap(), declared_type: plain("String") },
            FieldDescriptor {
                name: Identifier::new("tags").unwrap(),
                declared_type: path("Vec < String >", vec![segment("Vec", vec![plain("String")])]),
            },
            FieldDescriptor {
                name: Identifier::new("note").unwrap(),
                declared_type: path(
                    "Option < String >",
                    vec![segment("Option", vec![plain("String")])],
                ),
            },
        ])),
    };
    let spec = BuilderSpec::of(&input);
    assert_eq!(spec.original_type_name.as_str(), "Message");
    let seen: Vec<(String, Category)> = spec
        .fields
        .iter()
        .map(|field| (field.descriptor.name.as_str().to_string(), field.classification.category()))
        .collect();
    assert_eq!(
        seen,
        vec![
            ("name".to_string(), Category::Mandatory),
            ("tags".to_string(), Category::Repeated),
            ("note".to_string(), Category::Optional),
        ]
    );
}

#[test]
fn stored_type_is_the_argument_of_an_option_only() {
    let optional = FieldDescriptor {
        name: Identifier::new("note").unwrap(),
        declared_type: path("Option < String >", vec![segment("Option", vec![plain("String")])]),
    };
    assert_eq!(ClassifiedField::new(&optional).stored_type().tokens.to_string(), "String");
    let repeated = FieldDescriptor {
        name: Identifier::new("tags").unwrap(),
        declared_type: path("Vec < String >", vec![segment("Vec", vec![plain("String")])]),
    };
    assert_eq!(ClassifiedField::new(&repeated).stored_type().tokens.to_string(), "Vec < String >");
    let mandatory =
        FieldDescriptor { name: Identifier::new("name").unwrap(), declared_type: plain("String") };
    assert_eq!(ClassifiedField::new(&mandatory).stored_type().tokens.to_string(), "String");
}
