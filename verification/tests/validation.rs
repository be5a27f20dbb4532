use isar_instance::error::IsarError;
use isar_instance::schema::{CollectionSchema, DataType, IndexSchema, IsarSchema, PropertySchema};
use isar_instance::validate::{
    collection_is_valid, collection_names_distinct, has_property, index_is_valid,
    property_names_distinct, verify_schema,
};

fn props() -> Vec<PropertySchema> {
    vec![
        PropertySchema::new("prop1", DataType::String, None),
        PropertySchema::unnamed(DataType::Object, Some(3)),
        PropertySchema::new("prop2", DataType::Long, None),
        PropertySchema::unnamed(DataType::Object, Some(4)),
    ]
}

fn bad_again() -> IndexSchema {
    IndexSchema::new("again", vec!["nothing".to_string()], true)
}

#[test]
fn well_formed_schema_passes() {
    let schema = IsarSchema::new(vec![
        CollectionSchema::new(
            1,
            "Test",
            props(),
            vec![
                IndexSchema::new("myindex", vec!["prop1".to_string()], false),
                IndexSchema::new("both", vec!["prop2".to_string(), "prop1".to_string()], true),
            ],
            false,
        ),
        CollectionSchema::new(2, "Other", props(), vec![], true),
    ]);
    assert!(verify_schema(&schema).is_ok());
    assert!(verify_schema(&IsarSchema::new(vec![])).is_ok());
}

#[test]
fn repeated_collection_name_is_refused() {
    let schema = IsarSchema::new(vec![
        CollectionSchema::new(1, "A", vec![], vec![], false),
        CollectionSchema::new(2, "B", vec![], vec![], false),
        CollectionSchema::new(3, "A", vec![], vec![], false),
    ]);
    match verify_schema(&schema) {
        Err(IsarError::SchemaError { message }) => {
            assert_eq!(message, "Two collections have the same name.")
        }
        other => panic!("{:?}", other),
    }
    assert!(!collection_names_distinct(&schema.collections));
    assert!(collection_names_distinct(&schema.collections[..2].to_vec()));
}

#[test]
fn repeated_property_name_is_refused() {
    let mut properties = props();
    assert!(property_names_distinct(&properties));
    properties.push(PropertySchema::new("prop1", DataType::Bool, None));
    assert!(!property_names_distinct(&properties));
    let collection = CollectionSchema::new(1, "A", properties, vec![], false);
    assert!(!collection_is_valid(&collection));
    let schema = IsarSchema::new(vec![collection]);
    assert!(matches!(verify_schema(&schema), Err(IsarError::SchemaError { .. })));
}

#[test]
fn unnamed_properties_never_clash() {
    let properties = vec![
        PropertySchema::unnamed(DataType::Object, None),
        PropertySchema::unnamed(DataType::Object, None),
    ];
    assert!(property_names_distinct(&properties));
    assert!(!has_property(&properties, &"".to_string()));
}

#[test]
fn index_on_unknown_property_is_refused() {
    let good = IndexSchema::new("myindex", vec!["prop1".to_string()], false);
    let bad = IndexSchema::new("other", vec!["prop1".to_string(), "prop3".to_string()], false);
    let none = IndexSchema::new("none", vec![], false);
    assert!(index_is_valid(&props(), &good));
    assert!(!index_is_valid(&props(), &bad));
    assert!(index_is_valid(&props(), &none));
    assert!(has_property(&props(), &"prop2".to_string()));
    assert!(!has_property(&props(), &"prop3".to_string()));
    let collection = CollectionSchema::new(2, "Second", props(), vec![good, bad], false);
    assert!(!collection_is_valid(&collection));
    let first = CollectionSchema::new(1, "First", props(), vec![], false);
    let third = CollectionSchema::new(3, "Third", vec![], vec![bad_again()], false);
    match verify_schema(&IsarSchema::new(vec![first, collection, third])) {
        Err(IsarError::SchemaError { message }) => assert_eq!(
            message,
            "A property name is repeated or an index names an unknown property in collection Second"
        ),
        other => panic!("{:?}", other),
    }
}
