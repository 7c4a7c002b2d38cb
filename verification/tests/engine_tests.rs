use ex_jsonschema::json::JsonValue;
use ex_jsonschema::{
    detect_draft_from_schema, valid, validate, validate_verbose, CompiledSchema, DraftVersion,
    JsonSchemaError, VerboseError,
};

const PERSON_SCHEMA: &str = "{\"type\": \"object\", \"required\": [\"name\"], \"properties\": {\"name\": {\"type\": \"string\", \"minLength\": 2}}}";

fn lookup<'a>(entries: &'a [(String, JsonValue)], key: &str) -> Option<&'a JsonValue> {
    entries.iter().find(|(k, _)| k == key).map(|(_, v)| v)
}

#[test]
fn verbose_min_length_failure_is_fully_enriched() {
    let compiled = CompiledSchema::new(PERSON_SCHEMA).unwrap();
    let outcome = validate_verbose(&compiled, "{\"name\": \"A\"}");
    let failures = match outcome {
        Err(VerboseError::Failures(list)) => list,
        other => panic!("expected failures, got {:?}", other),
    };
    assert_eq!(failures.len(), 1);
    let f = &failures[0];
    assert_eq!(f.keyword, "minLength");
    assert_eq!(f.instance_value, JsonValue::Str("A".to_string()));
    assert_eq!(f.schema_value, JsonValue::Num("2".to_string()));
    assert_eq!(lookup(&f.context, "actual_length"), Some(&JsonValue::Num("1".to_string())));
    assert_eq!(lookup(&f.context, "minimum_length"), Some(&JsonValue::Num("2".to_string())));
    assert!(f.suggestions.iter().any(|s| s.contains("at least 2 characters")));
    assert!(lookup(&f.context, "expected").is_some());
    assert!(lookup(&f.context, "actual").is_some());
    assert_eq!(
        lookup(&f.annotations, "error_keyword"),
        Some(&JsonValue::Str("minLength".to_string()))
    );
    assert_eq!(
        lookup(&f.annotations, "validation_failed_at"),
        Some(&JsonValue::Str("/name".to_string()))
    );
}

#[test]
fn verbose_required_failure_names_missing_property() {
    let compiled = CompiledSchema::new(PERSON_SCHEMA).unwrap();
    let outcome = validate_verbose(&compiled, "{}");
    let failures = match outcome {
        Err(VerboseError::Failures(list)) => list,
        other => panic!("expected failures, got {:?}", other),
    };
    assert_eq!(failures.len(), 1);
    let f = &failures[0];
    assert_eq!(f.keyword, "required");
    assert_eq!(
        lookup(&f.context, "actual"),
        Some(&JsonValue::Str("missing required property".to_string()))
    );
}

#[test]
fn verbose_accepts_valid_instance() {
    let compiled = CompiledSchema::new(PERSON_SCHEMA).unwrap();
    assert!(validate_verbose(&compiled, "{\"name\": \"Ada\"}").is_ok());
}

#[test]
fn verbose_reports_instance_parse_error() {
    let compiled = CompiledSchema::new(PERSON_SCHEMA).unwrap();
    match validate_verbose(&compiled, "not json") {
        Err(VerboseError::JsonParseError(_)) => {},
        other => panic!("expected a parse error, got {:?}", other),
    }
}

#[test]
fn validate_rejects_with_raw_failures() {
    let compiled = CompiledSchema::new(PERSON_SCHEMA).unwrap();
    match validate(&compiled, "{\"name\": 1}") {
        Err(JsonSchemaError::ValidationError(details)) => {
            assert!(!details.is_empty());
            assert_eq!(details[0].instance_path, "/name");
            assert!(details[0].schema_path.ends_with("type"));
            assert!(!details[0].message.is_empty());
        },
        other => panic!("expected validation failures, got {:?}", other),
    }
}

#[test]
fn validate_accepts_and_reports_parse_errors() {
    let compiled = CompiledSchema::new(PERSON_SCHEMA).unwrap();
    assert!(validate(&compiled, "{\"name\": \"Ada\"}").is_ok());
    match validate(&compiled, "{broken") {
        Err(JsonSchemaError::JsonParseError(detail)) => {
            assert!(detail.line >= 1);
        },
        other => panic!("expected a parse error, got {:?}", other),
    }
}

#[test]
fn compile_rejects_unparsable_schema_text() {
    match CompiledSchema::new("{not json") {
        Err(JsonSchemaError::JsonParseError(detail)) => {
            assert!(!detail.message.is_empty());
        },
        Err(other) => panic!("expected a parse error, got {:?}", other),
        Ok(_) => panic!("expected a parse error, got a compiled schema"),
    }
}

#[test]
fn compile_rejects_invalid_schema_document() {
    match CompiledSchema::new("{\"type\": 17}") {
        Err(JsonSchemaError::CompilationError(message)) => {
            assert!(!message.is_empty());
        },
        Err(other) => panic!("expected a compilation error, got {:?}", other),
        Ok(_) => panic!("expected a compilation error, got a compiled schema"),
    }
}

#[test]
fn compile_with_each_explicit_draft() {
    for draft in [
        DraftVersion::Auto,
        DraftVersion::Draft4,
        DraftVersion::Draft6,
        DraftVersion::Draft7,
        DraftVersion::Draft201909,
        DraftVersion::Draft202012,
    ] {
        let compiled = CompiledSchema::new_with_draft("{\"minimum\": 5}", draft).unwrap();
        let good = ex_jsonschema::parse_document("42").unwrap();
        let bad = ex_jsonschema::parse_document("3").unwrap();
        assert!(compiled.is_valid(&good), "draft {:?}", draft);
        assert!(!compiled.is_valid(&bad), "draft {:?}", draft);
    }
}

#[test]
fn valid_treats_unparsable_instance_as_null() {
    let null_only = CompiledSchema::new("{\"type\": \"null\"}").unwrap();
    assert!(valid(&null_only, "definitely not json"));
    assert!(valid(&null_only, "null"));
    assert!(!valid(&null_only, "42"));
    let string_only = CompiledSchema::new("{\"type\": \"string\"}").unwrap();
    assert!(!valid(&string_only, "definitely not json"));
}

#[test]
fn draft_detection_scenarios() {
    let d7 = detect_draft_from_schema(
        "{\"$schema\": \"http://json-schema.org/draft-07/schema#\"}",
    );
    assert_eq!(d7.unwrap(), DraftVersion::Draft7);
    let none = detect_draft_from_schema("{}");
    assert_eq!(none.unwrap(), DraftVersion::Draft202012);
}

#[test]
fn draft_detection_covers_all_identifiers() {
    let cases = [
        ("http://json-schema.org/draft-04/schema#", DraftVersion::Draft4),
        ("http://json-schema.org/draft-06/schema#", DraftVersion::Draft6),
        ("https://example.com/meta/draft/06/x", DraftVersion::Draft6),
        ("http://json-schema.org/draft-07/schema#", DraftVersion::Draft7),
        ("https://json-schema.org/draft/2019-09/schema", DraftVersion::Draft201909),
        ("https://json-schema.org/draft/2020-12/schema", DraftVersion::Draft202012),
        ("https://example.com/custom", DraftVersion::Draft202012),
    ];
    for (url, expected) in cases {
        let text = format!("{{\"$schema\": \"{}\"}}", url);
        assert_eq!(detect_draft_from_schema(&text).unwrap(), expected, "url {}", url);
    }
}

#[test]
fn draft_detection_non_string_schema_key_defaults() {
    assert_eq!(
        detect_draft_from_schema("{\"$schema\": 12}").unwrap(),
        DraftVersion::Draft202012
    );
}

#[test]
fn draft_detection_reports_parse_errors() {
    assert!(detect_draft_from_schema("{{{").is_err());
}

#[test]
fn parse_document_builds_the_model() {
    // Would fail if parsing handed text back instead of a document.
    let doc = ex_jsonschema::parse_document("{\"k\": [true, null, \"s\", 2.5]}").unwrap();
    assert_eq!(
        doc.model,
        JsonValue::Obj(vec![(
            "k".to_string(),
            JsonValue::Arr(vec![
                JsonValue::Bool(true),
                JsonValue::Null,
                JsonValue::Str("s".to_string()),
                JsonValue::Num("2.5".to_string()),
            ])
        )])
    );
    assert!(ex_jsonschema::parse_document("[1,").is_err());
}

#[test]
fn verbose_records_echo_raw_failure_fields() {
    let compiled = CompiledSchema::new(PERSON_SCHEMA).unwrap();
    let raw = match validate(&compiled, "{\"name\": \"A\"}") {
        Err(JsonSchemaError::ValidationError(details)) => details,
        other => panic!("expected validation failures, got {:?}", other),
    };
    let enriched = match validate_verbose(&compiled, "{\"name\": \"A\"}") {
        Err(VerboseError::Failures(list)) => list,
        other => panic!("expected failures, got {:?}", other),
    };
    assert_eq!(raw.len(), enriched.len());
    for (r, e) in raw.iter().zip(enriched.iter()) {
        assert_eq!(r.instance_path, e.instance_path);
        assert_eq!(r.schema_path, e.schema_path);
        assert_eq!(r.message, e.message);
    }
}
