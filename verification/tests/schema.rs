use attest::schema::{
    statement_schema, subject_schema, Field, FieldName, FieldType, Platform,
};
use attest::json::{schema_from_json, schema_to_json, subject_schema_to_json};
use attest::SubjectKind;

#[test]
fn statement_schema_lists_handle_and_subject() {
    let schema = statement_schema(Platform::Reddit);
    assert_eq!(schema.platform, Platform::Reddit);
    assert_eq!(
        schema.fields,
        vec![
            Field { name: FieldName::Handle, ty: FieldType::Str },
            Field { name: FieldName::Subject, ty: FieldType::SubjectRef },
        ]
    );
}

#[test]
fn subject_schema_has_one_entry_per_variant() {
    let schema = subject_schema();
    let kinds: Vec<SubjectKind> = schema.variants.iter().map(|v| v.kind).collect();
    assert_eq!(kinds, vec![SubjectKind::PublicKey, SubjectKind::Address]);
    assert_eq!(
        schema.variants[0].fields,
        vec![Field { name: FieldName::Key, ty: FieldType::Str }]
    );
    assert_eq!(
        schema.variants[1].fields,
        vec![Field { name: FieldName::Address, ty: FieldType::Str }]
    );
}

#[test]
fn statement_schema_json_is_exact() {
    let schema = statement_schema(Platform::Reddit);
    let text = schema_to_json(&schema);
    assert_eq!(
        text,
        "{\"title\":\"statement\",\"type\":\"object\",\"properties\":{\
         \"handle\":{\"type\":\"string\"},\
         \"subject\":{\"$ref\":\"#/definitions/subject\"}}}"
    );
}

#[test]
fn subject_schema_json_is_exact() {
    let schema = subject_schema();
    let text = subject_schema_to_json(&schema);
    assert_eq!(
        text,
        "{\"title\":\"subject\",\"oneOf\":[\
         {\"title\":\"public_key\",\"type\":\"object\",\"properties\":{\"key\":{\"type\":\"string\"}}},\
         {\"title\":\"address\",\"type\":\"object\",\"properties\":{\"address\":{\"type\":\"string\"}}}]}"
    );
}

#[test]
fn schema_json_round_trips() {
    let schema = statement_schema(Platform::Reddit);
    let text = schema_to_json(&schema);
    let back = schema_from_json(&text).unwrap();
    assert_eq!(back.platform, schema.platform);
    assert_eq!(back.fields, schema.fields);
}

#[test]
fn schema_from_json_rejects_other_text() {
    assert!(schema_from_json("{}").is_none());
    assert!(schema_from_json("").is_none());
    assert!(schema_from_json("{\"title\":\"statement\"}").is_none());
}

#[test]
fn independent_tool_reads_back_the_field_set() {
    let schema = statement_schema(Platform::Reddit);
    let text = schema_to_json(&schema);
    let value: serde_json::Value = serde_json::from_str(&text).unwrap();
    assert_eq!(value["title"], "statement");
    let properties = value["properties"].as_object().unwrap();
    assert_eq!(properties.len(), 2);
    assert_eq!(value["properties"]["handle"]["type"], "string");
    assert_eq!(value["properties"]["subject"]["$ref"], "#/definitions/subject");
}

#[test]
fn independent_tool_reads_back_the_subject_variants() {
    let schema = subject_schema();
    let text = subject_schema_to_json(&schema);
    let value: serde_json::Value = serde_json::from_str(&text).unwrap();
    assert_eq!(value["title"], "subject");
    let variants = value["oneOf"].as_array().unwrap();
    assert_eq!(variants.len(), 2);
    assert_eq!(variants[0]["title"], "public_key");
    assert_eq!(variants[0]["properties"]["key"]["type"], "string");
    assert_eq!(variants[1]["title"], "address");
    assert_eq!(variants[1]["properties"]["address"]["type"], "string");
}
