use typesense::schema::{
    BaseType, CollectionResponse, CollectionSchema, CollectionSchemaBuilder, Field,
    FieldDeclaration, FieldType, NativeType, SchemaError,
};

fn company(sorting: &str) -> CollectionSchemaBuilder {
    let mut country = FieldDeclaration::new("country".to_string(), NativeType::Str);
    country.facet = true;
    CollectionSchemaBuilder::new("companies".to_string())
        .field(FieldDeclaration::new(
            "id".to_string(),
            NativeType::Optional(Box::new(NativeType::Str)),
        ))
        .field(FieldDeclaration::new("company_name".to_string(), NativeType::Str))
        .field(FieldDeclaration::new("num_employees".to_string(), NativeType::Int32))
        .field(country)
        .default_sorting_field(sorting.to_string())
}

fn field<'a>(schema: &'a CollectionSchema, name: &str) -> &'a Field {
    schema.fields().iter().find(|f| f.name == name).unwrap()
}

#[test]
fn company_schema_is_derived() {
    let schema = company("num_employees").build().unwrap();
    assert_eq!(schema.name(), "companies");
    assert_eq!(schema.fields().len(), 4);
    assert_eq!(schema.default_sorting_field(), &Some("num_employees".to_string()));
    assert!(field(&schema, "country").facet);
    assert!(field(&schema, "id").optional);
    assert!(!field(&schema, "num_employees").optional);
    assert_eq!(field(&schema, "num_employees").data_type, FieldType::Scalar(BaseType::Int32));
    assert_eq!(field(&schema, "company_name").data_type, FieldType::Scalar(BaseType::String));
    let names: Vec<&str> = schema.fields().iter().map(|f| f.name.as_str()).collect();
    assert_eq!(names, vec!["id", "company_name", "num_employees", "country"]);
}

#[test]
fn unknown_sorting_field_is_refused() {
    assert_eq!(company("revenue").build().unwrap_err(), SchemaError::UnknownSortingField);
}

#[test]
fn derivation_is_deterministic() {
    let b = company("num_employees");
    let first = b.build().unwrap();
    let second = b.build().unwrap();
    assert!(first.same_as(&second));
    assert_eq!(first, second);
}

#[test]
fn optional_native_type_forces_optional() {
    let mut d = FieldDeclaration::new(
        "rating".to_string(),
        NativeType::Optional(Box::new(NativeType::Int64)),
    );
    d.optional = Some(false);
    let f = d.derive_field();
    assert!(f.optional);
    assert_eq!(f.data_type, FieldType::Scalar(BaseType::Int64));
}

#[test]
fn optional_annotation_on_plain_type() {
    let mut d = FieldDeclaration::new("rating".to_string(), NativeType::Int64);
    assert!(!d.derive_field().optional);
    d.optional = Some(true);
    assert!(d.derive_field().optional);
}

#[test]
fn native_types_map_to_field_types() {
    let cases = vec![
        (NativeType::Int32, "int32"),
        (NativeType::Int64, "int64"),
        (NativeType::Float, "float"),
        (NativeType::Bool, "bool"),
        (NativeType::Str, "string"),
        (NativeType::Structured, "object"),
        (NativeType::Sequence(Box::new(NativeType::Str)), "string[]"),
        (NativeType::Sequence(Box::new(NativeType::Sequence(Box::new(NativeType::Int32)))), "int32[][]"),
        (NativeType::Optional(Box::new(NativeType::Sequence(Box::new(NativeType::Float)))), "float[]"),
    ];
    for (native, name) in cases {
        assert_eq!(native.field_type().wire_name(), name);
    }
}

#[test]
fn objects_are_not_indexed_by_default() {
    let mut d = FieldDeclaration::new("address".to_string(), NativeType::Structured);
    let f = d.derive_field();
    assert_eq!(f.data_type, FieldType::Scalar(BaseType::Object));
    assert!(!f.index);
    d.index = Some(true);
    assert!(d.derive_field().index);
    let s = FieldDeclaration::new("tags".to_string(), NativeType::Str).derive_field();
    assert!(s.index);
}

#[test]
fn facet_annotation_on_sequence() {
    let mut d = FieldDeclaration::new(
        "tags".to_string(),
        NativeType::Sequence(Box::new(NativeType::Str)),
    );
    d.facet = true;
    let f = d.derive_field();
    assert!(f.facet);
    assert_eq!(f.data_type.wire_name(), "string[]");
}

#[test]
fn rename_changes_only_the_name() {
    let mut d = FieldDeclaration::new("num_employees".to_string(), NativeType::Int32);
    let plain = d.derive_field();
    d.rename = Some("employees".to_string());
    let renamed = d.derive_field();
    assert_eq!(renamed.name, "employees");
    assert_eq!(renamed.data_type, plain.data_type);
    assert_eq!(renamed.index, plain.index);
    assert_eq!(renamed.optional, plain.optional);
}

#[test]
fn sorting_field_must_be_numeric_and_required() {
    assert_eq!(company("company_name").build().unwrap_err(), SchemaError::SortingFieldNotNumeric);
    let b = CollectionSchemaBuilder::new("c".to_string())
        .field(FieldDeclaration::new(
            "n".to_string(),
            NativeType::Optional(Box::new(NativeType::Int32)),
        ))
        .default_sorting_field("n".to_string());
    assert_eq!(b.build().unwrap_err(), SchemaError::SortingFieldOptional);
    let b = CollectionSchemaBuilder::new("c".to_string())
        .field(FieldDeclaration::new("n".to_string(), NativeType::Float))
        .default_sorting_field("n".to_string());
    assert!(b.build().is_ok());
}

#[test]
fn empty_name_and_duplicates_are_refused() {
    let b = CollectionSchemaBuilder::new(String::new())
        .field(FieldDeclaration::new("n".to_string(), NativeType::Int32));
    assert_eq!(b.build().unwrap_err(), SchemaError::EmptyCollectionName);
    let mut renamed = FieldDeclaration::new("m".to_string(), NativeType::Int64);
    renamed.rename = Some("n".to_string());
    let b = CollectionSchemaBuilder::new("c".to_string())
        .field(FieldDeclaration::new("n".to_string(), NativeType::Int32))
        .field(renamed);
    assert_eq!(b.build().unwrap_err(), SchemaError::DuplicateFieldName);
}

#[test]
fn schema_without_sorting_field() {
    let b = CollectionSchemaBuilder::new("c".to_string());
    let s = b.build().unwrap();
    assert!(s.fields().is_empty());
    assert_eq!(s.default_sorting_field(), &None);
}

#[test]
fn schema_from_fields() {
    let f = Field {
        name: "n".to_string(),
        data_type: FieldType::Scalar(BaseType::Int32),
        facet: false,
        optional: false,
        index: true,
    };
    assert!(CollectionSchema::new("c".to_string(), vec![f], Some("n".to_string())).is_ok());
    assert_eq!(
        CollectionSchema::new("c".to_string(), vec![], Some("n".to_string())).unwrap_err(),
        SchemaError::UnknownSortingField
    );
}

#[test]
fn wire_names_read_back() {
    for name in ["string", "int32", "int64", "float", "bool", "geopoint", "object", "int64[]", "object[][]"] {
        let t = FieldType::from_wire_name(name).unwrap();
        assert_eq!(t.wire_name(), name);
    }
    assert_eq!(
        FieldType::from_wire_name("geopoint[]"),
        Some(FieldType::Array(Box::new(FieldType::Scalar(BaseType::Geopoint))))
    );
    assert_eq!(FieldType::from_wire_name("int16"), None);
    assert_eq!(FieldType::from_wire_name("[]"), None);
    assert_eq!(FieldType::from_wire_name(""), None);
    assert_eq!(BaseType::from_name("string[]"), None);
}

fn echo(schema: &CollectionSchema) -> Vec<Field> {
    schema
        .fields()
        .iter()
        .map(|f| Field {
            name: f.name.clone(),
            data_type: FieldType::from_wire_name(&f.data_type.wire_name()).unwrap(),
            facet: f.facet,
            optional: f.optional,
            index: f.index,
        })
        .collect()
}

fn echoed(schema: &CollectionSchema, fields: Vec<Field>) -> CollectionSchema {
    CollectionSchema::new(schema.name().clone(), fields, schema.default_sorting_field().clone()).unwrap()
}

#[test]
fn echoed_schema_matches_derived() {
    let derived = company("num_employees").build().unwrap();
    let response = CollectionResponse { schema: echoed(&derived, echo(&derived)), num_documents: 0 };
    assert!(response.matches_schema(&derived));
    let other = CollectionSchemaBuilder::new("companies".to_string()).build().unwrap();
    assert!(!response.matches_schema(&other));
    let mut fields = echo(&derived);
    fields[3].facet = false;
    assert!(!echoed(&derived, fields).same_as(&derived));
}
