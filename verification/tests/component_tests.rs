use ex_jsonschema::annotations::extract_annotations;
use ex_jsonschema::constraint::get_schema_constraint_value;
use ex_jsonschema::context::build_error_context;
use ex_jsonschema::json::JsonValue;
use ex_jsonschema::keyword::extract_keyword;
use ex_jsonschema::suggest::generate_suggestions;
use ex_jsonschema::{parse_document, ValidationErrorDetail};

fn model(text: &str) -> JsonValue {
    parse_document(text).unwrap().model
}

fn lookup<'a>(entries: &'a [(String, JsonValue)], key: &str) -> Option<&'a JsonValue> {
    entries.iter().find(|(k, _)| k == key).map(|(_, v)| v)
}

fn failure(instance_path: &str, schema_path: &str, message: &str) -> ValidationErrorDetail {
    ValidationErrorDetail {
        instance_path: instance_path.to_string(),
        schema_path: schema_path.to_string(),
        message: message.to_string(),
    }
}

#[test]
fn keyword_is_last_segment() {
    assert_eq!(extract_keyword("/properties/age/minimum"), "minimum");
    assert_eq!(extract_keyword("/required"), "required");
    assert_eq!(extract_keyword("minLength"), "minLength");
}

#[test]
fn keyword_unrecognized_is_returned_verbatim() {
    assert_eq!(extract_keyword("/properties/x/exclusiveMaximum"), "exclusiveMaximum");
    assert_eq!(extract_keyword("/definitions/custom"), "custom");
}

#[test]
fn keyword_empty_path_is_unknown() {
    assert_eq!(extract_keyword(""), "unknown");
}

#[test]
fn constraint_direct_keyword_is_resolved_value() {
    let schema = model("{\"properties\": {\"age\": {\"minimum\": 0}}}");
    let got = get_schema_constraint_value(&schema, "/properties/age/minimum");
    assert_eq!(got, JsonValue::Num("0".to_string()));
}

#[test]
fn constraint_enum_is_resolved_list() {
    let schema = model("{\"enum\": [\"a\", \"b\"]}");
    let got = get_schema_constraint_value(&schema, "/enum");
    assert_eq!(
        got,
        JsonValue::Arr(vec![
            JsonValue::Str("a".to_string()),
            JsonValue::Str("b".to_string())
        ])
    );
}

#[test]
fn constraint_type_reads_parent_property() {
    let schema = model("{\"properties\": {\"name\": {\"type\": \"string\"}}}");
    let got = get_schema_constraint_value(&schema, "/properties/name/type");
    assert_eq!(got, JsonValue::Str("string".to_string()));
}

#[test]
fn constraint_required_reads_parent_list() {
    let schema = model("{\"required\": [\"name\"]}");
    let got = get_schema_constraint_value(&schema, "/required");
    assert_eq!(got, JsonValue::Arr(vec![JsonValue::Str("name".to_string())]));
}

#[test]
fn constraint_unknown_keyword_returns_resolved_value() {
    let schema = model("{\"properties\": {\"x\": {\"fooBar\": 1}}}");
    let got = get_schema_constraint_value(&schema, "/properties/x/fooBar");
    assert_eq!(got, JsonValue::Num("1".to_string()));
}

#[test]
fn constraint_unresolvable_path_is_sentinel() {
    let schema = model("{}");
    let got = get_schema_constraint_value(&schema, "/properties/x/minimum");
    assert_eq!(got, JsonValue::Str("unknown constraint".to_string()));
}

#[test]
fn constraint_type_with_unresolvable_parent_falls_back() {
    let schema = model("{}");
    let got = get_schema_constraint_value(&schema, "/properties/x/type");
    assert_eq!(got, JsonValue::Str("unknown".to_string()));
}

#[test]
fn constraint_pattern_missing_on_parent_falls_back() {
    let schema = model("{\"properties\": {\"x\": {\"minLength\": 1}}}");
    let got = get_schema_constraint_value(&schema, "/properties/x/pattern");
    assert_eq!(got, JsonValue::Str("unknown pattern".to_string()));
}

#[test]
fn constraint_required_missing_on_parent_is_empty_list() {
    let schema = model("{\"type\": \"object\"}");
    let got = get_schema_constraint_value(&schema, "/required");
    assert_eq!(got, JsonValue::Arr(vec![]));
}

#[test]
fn context_always_has_paths_expected_and_actual() {
    let f = failure("/x", "/properties/x/whatever", "m");
    let iv = JsonValue::Null;
    let sv = JsonValue::Num("1".to_string());
    for kw in [
        "type", "minimum", "maximum", "minLength", "maxLength", "pattern", "required", "minItems",
        "maxItems", "somethingElse",
    ] {
        let ctx = build_error_context(&f, &iv, &sv, kw);
        assert!(lookup(&ctx, "instance_path").is_some(), "keyword {}", kw);
        assert!(lookup(&ctx, "schema_path").is_some(), "keyword {}", kw);
        assert!(lookup(&ctx, "expected").is_some(), "keyword {}", kw);
        assert!(lookup(&ctx, "actual").is_some(), "keyword {}", kw);
    }
}

#[test]
fn context_min_length_lengths_and_texts() {
    let f = failure("/name", "/properties/name/minLength", "too short");
    let iv = JsonValue::Str("A".to_string());
    let sv = JsonValue::Num("2".to_string());
    let ctx = build_error_context(&f, &iv, &sv, "minLength");
    assert_eq!(lookup(&ctx, "minimum_length"), Some(&JsonValue::Num("2".to_string())));
    assert_eq!(lookup(&ctx, "actual_length"), Some(&JsonValue::Num("1".to_string())));
    assert_eq!(lookup(&ctx, "expected"), Some(&JsonValue::Str("length >= 2".to_string())));
    assert_eq!(lookup(&ctx, "actual"), Some(&JsonValue::Str("length: 1".to_string())));
}

#[test]
fn context_length_renders_multi_digit_counts() {
    let f = failure("/name", "/properties/name/minLength", "");
    let iv = JsonValue::Str("abcdefghijkl".to_string());
    let sv = JsonValue::Num("20".to_string());
    let ctx = build_error_context(&f, &iv, &sv, "minLength");
    assert_eq!(lookup(&ctx, "actual_length"), Some(&JsonValue::Num("12".to_string())));
    assert_eq!(lookup(&ctx, "actual"), Some(&JsonValue::Str("length: 12".to_string())));
}

#[test]
fn context_max_length_of_non_string_is_zero() {
    let f = failure("/x", "/properties/x/maxLength", "");
    let iv = JsonValue::Bool(true);
    let sv = JsonValue::Num("3".to_string());
    let ctx = build_error_context(&f, &iv, &sv, "maxLength");
    assert_eq!(lookup(&ctx, "actual_length"), Some(&JsonValue::Num("0".to_string())));
    assert_eq!(lookup(&ctx, "expected"), Some(&JsonValue::Str("length <= 3".to_string())));
}

#[test]
fn context_type_names_kinds_and_quotes_schema_value() {
    let f = failure("/x", "/properties/x/type", "");
    let iv = JsonValue::Num("7".to_string());
    let sv = JsonValue::Str("string".to_string());
    let ctx = build_error_context(&f, &iv, &sv, "type");
    assert_eq!(lookup(&ctx, "expected_type"), Some(&JsonValue::Str("string".to_string())));
    assert_eq!(lookup(&ctx, "actual_type"), Some(&JsonValue::Str("number".to_string())));
    assert_eq!(
        lookup(&ctx, "expected"),
        Some(&JsonValue::Str("type: \"string\"".to_string()))
    );
    assert_eq!(lookup(&ctx, "actual"), Some(&JsonValue::Num("7".to_string())));
}

#[test]
fn context_minimum_echoes_values() {
    let f = failure("/age", "/properties/age/minimum", "");
    let iv = JsonValue::Num("-3".to_string());
    let sv = JsonValue::Num("0".to_string());
    let ctx = build_error_context(&f, &iv, &sv, "minimum");
    assert_eq!(lookup(&ctx, "minimum_value"), Some(&sv));
    assert_eq!(lookup(&ctx, "actual_value"), Some(&iv));
    assert_eq!(lookup(&ctx, "expected"), Some(&JsonValue::Str("value >= 0".to_string())));
    assert_eq!(lookup(&ctx, "actual"), Some(&iv));
}

#[test]
fn context_required_uses_fixed_texts() {
    let f = failure("", "/required", "missing");
    let iv = JsonValue::Obj(vec![]);
    let sv = JsonValue::Arr(vec![JsonValue::Str("name".to_string())]);
    let ctx = build_error_context(&f, &iv, &sv, "required");
    assert_eq!(lookup(&ctx, "required_properties"), Some(&sv));
    assert_eq!(
        lookup(&ctx, "expected"),
        Some(&JsonValue::Str("all required properties present".to_string()))
    );
    assert_eq!(
        lookup(&ctx, "actual"),
        Some(&JsonValue::Str("missing required property".to_string()))
    );
}

#[test]
fn context_min_items_counts_array() {
    let f = failure("/xs", "/properties/xs/minItems", "");
    let iv = JsonValue::Arr(vec![JsonValue::Null]);
    let sv = JsonValue::Num("2".to_string());
    let ctx = build_error_context(&f, &iv, &sv, "minItems");
    assert_eq!(lookup(&ctx, "minimum_items"), Some(&sv));
    assert_eq!(lookup(&ctx, "actual_items"), Some(&JsonValue::Num("1".to_string())));
    assert_eq!(lookup(&ctx, "expected"), Some(&JsonValue::Str("items >= 2".to_string())));
    assert_eq!(lookup(&ctx, "actual"), Some(&iv));
}

#[test]
fn context_fallback_keeps_constraint() {
    let f = failure("/x", "/properties/x/contains", "");
    let iv = JsonValue::Null;
    let sv = JsonValue::Str("something".to_string());
    let ctx = build_error_context(&f, &iv, &sv, "contains");
    assert_eq!(lookup(&ctx, "constraint"), Some(&sv));
    assert_eq!(
        lookup(&ctx, "expected"),
        Some(&JsonValue::Str("constraint satisfied".to_string()))
    );
    assert_eq!(lookup(&ctx, "actual"), Some(&iv));
}

#[test]
fn annotations_inherit_parent_title() {
    let schema = model(
        "{\"type\": \"object\", \"title\": \"Parent\", \"properties\": {\"age\": {\"type\": \"integer\", \"minimum\": 0, \"title\": \"Age\"}}}",
    );
    let f = failure("/age", "/properties/age/minimum", "out of range");
    let anns = extract_annotations(&schema, &f);
    // The failing subschema is the age schema (the keyword segment is
    // stripped); the parent schema, one nesting level up, is the root.
    assert_eq!(lookup(&anns, "title"), Some(&JsonValue::Str("Age".to_string())));
    assert_eq!(lookup(&anns, "parent_title"), Some(&JsonValue::Str("Parent".to_string())));
    assert_eq!(lookup(&anns, "error_keyword"), Some(&JsonValue::Str("minimum".to_string())));
    assert_eq!(
        lookup(&anns, "validation_failed_at"),
        Some(&JsonValue::Str("/age".to_string()))
    );
}

#[test]
fn annotations_node_and_parent_titles() {
    let schema = model(
        "{\"type\": \"object\", \"title\": \"Parent\", \"description\": \"a person\", \"properties\": {\"age\": {\"type\": \"integer\", \"minimum\": 0, \"title\": \"Age\", \"description\": \"years\", \"examples\": [1], \"default\": 0}}}",
    );
    let f = failure("/age", "/properties/age/minimum", "bad");
    let anns = extract_annotations(&schema, &f);
    assert_eq!(lookup(&anns, "title"), Some(&JsonValue::Str("Age".to_string())));
    assert_eq!(lookup(&anns, "description"), Some(&JsonValue::Str("years".to_string())));
    assert_eq!(lookup(&anns, "examples"), Some(&JsonValue::Arr(vec![JsonValue::Num("1".to_string())])));
    assert_eq!(lookup(&anns, "default"), Some(&JsonValue::Num("0".to_string())));
    assert_eq!(lookup(&anns, "parent_title"), Some(&JsonValue::Str("Parent".to_string())));
    assert_eq!(
        lookup(&anns, "parent_description"),
        Some(&JsonValue::Str("a person".to_string()))
    );
}

#[test]
fn annotations_metadata_present_even_when_nothing_resolves() {
    let schema = model("{}");
    let f = failure("/x", "/properties/x/minimum", "m");
    let anns = extract_annotations(&schema, &f);
    assert_eq!(lookup(&anns, "title"), None);
    assert_eq!(lookup(&anns, "error_keyword"), Some(&JsonValue::Str("minimum".to_string())));
    assert_eq!(lookup(&anns, "validation_failed_at"), Some(&JsonValue::Str("/x".to_string())));
}

#[test]
fn annotations_parent_does_not_propagate_examples() {
    let schema = model(
        "{\"title\": \"Root\", \"examples\": [true], \"default\": 9, \"properties\": {\"x\": {\"minimum\": 1}}}",
    );
    let f = failure("/x", "/properties/x/minimum", "m");
    let anns = extract_annotations(&schema, &f);
    // The root is the parent schema: only title and description cross.
    assert_eq!(lookup(&anns, "parent_title"), Some(&JsonValue::Str("Root".to_string())));
    assert_eq!(lookup(&anns, "parent_description"), None);
    assert!(lookup(&anns, "parent_examples").is_none());
    assert!(lookup(&anns, "parent_default").is_none());
}

#[test]
fn annotations_single_segment_path_reads_root_as_node() {
    let schema = model("{\"title\": \"Root\", \"required\": [\"x\"]}");
    let f = failure("", "/required", "m");
    let anns = extract_annotations(&schema, &f);
    // Stripping the keyword segment of a one-segment pointer leaves
    // the root itself as the failing subschema; it has no parent.
    assert_eq!(lookup(&anns, "title"), Some(&JsonValue::Str("Root".to_string())));
    assert_eq!(lookup(&anns, "parent_title"), None);
    assert_eq!(lookup(&anns, "error_keyword"), Some(&JsonValue::Str("required".to_string())));
}

#[test]
fn suggestions_per_keyword_templates() {
    let two = JsonValue::Num("2".to_string());
    assert_eq!(
        generate_suggestions("minimum", &two, ""),
        vec!["Value must be >= 2".to_string()]
    );
    assert_eq!(
        generate_suggestions("maximum", &two, ""),
        vec!["Value must be <= 2".to_string()]
    );
    assert_eq!(
        generate_suggestions("minLength", &two, ""),
        vec!["String must be at least 2 characters".to_string()]
    );
    assert_eq!(
        generate_suggestions("maxLength", &two, ""),
        vec!["String must be at most 2 characters".to_string()]
    );
    assert_eq!(
        generate_suggestions("minItems", &two, ""),
        vec!["Array must have at least 2 items".to_string()]
    );
    assert_eq!(
        generate_suggestions("maxItems", &two, ""),
        vec!["Array must have at most 2 items".to_string()]
    );
    assert_eq!(
        generate_suggestions("multipleOf", &two, ""),
        vec!["Value must be a multiple of 2".to_string()]
    );
    assert_eq!(
        generate_suggestions("uniqueItems", &JsonValue::Bool(true), ""),
        vec!["Array items must be unique".to_string()]
    );
    assert_eq!(
        generate_suggestions("required", &JsonValue::Arr(vec![]), ""),
        vec!["Add the missing required property".to_string()]
    );
}

#[test]
fn suggestions_render_constraint_values_as_json() {
    let pat = JsonValue::Str("^a+$".to_string());
    assert_eq!(
        generate_suggestions("pattern", &pat, ""),
        vec!["String must match pattern: \"^a+$\"".to_string()]
    );
    let choices = JsonValue::Arr(vec![
        JsonValue::Str("a".to_string()),
        JsonValue::Str("b".to_string()),
    ]);
    assert_eq!(
        generate_suggestions("enum", &choices, ""),
        vec!["Value must be one of: [\"a\",\"b\"]".to_string()]
    );
    assert_eq!(
        generate_suggestions("const", &JsonValue::Num("42".to_string()), ""),
        vec!["Value must be exactly: 42".to_string()]
    );
}

#[test]
fn suggestions_type_uses_plain_name_or_unknown() {
    assert_eq!(
        generate_suggestions("type", &JsonValue::Str("integer".to_string()), ""),
        vec!["Expected type: integer".to_string()]
    );
    assert_eq!(
        generate_suggestions("type", &JsonValue::Arr(vec![]), ""),
        vec!["Expected type: unknown".to_string()]
    );
}

#[test]
fn suggestions_format_special_cases_email() {
    let sv = JsonValue::Str("email".to_string());
    assert_eq!(
        generate_suggestions("format", &sv, "\"x\" is not a valid email"),
        vec!["Use valid email format: user@domain.com".to_string()]
    );
    assert_eq!(
        generate_suggestions("format", &sv, "\"x\" is not a valid date"),
        vec!["Check the format requirements".to_string()]
    );
}

#[test]
fn suggestions_fallback_bundle_with_short_message() {
    let sv = JsonValue::Num("3".to_string());
    let got = generate_suggestions("exclusiveMinimum", &sv, "3 is not greater than 3");
    assert_eq!(
        got,
        vec![
            "Validation failed for 'exclusiveMinimum' constraint".to_string(),
            "Expected: 3".to_string(),
            "Check the schema documentation for this constraint".to_string(),
            "Verify your data matches the expected format".to_string(),
            "Error details: 3 is not greater than 3".to_string(),
        ]
    );
}

#[test]
fn suggestions_fallback_drops_empty_or_long_messages() {
    let sv = JsonValue::Null;
    let no_message = generate_suggestions("contains", &sv, "");
    assert_eq!(no_message.len(), 4);
    let long = "x".repeat(200);
    let long_message = generate_suggestions("contains", &sv, &long);
    assert_eq!(long_message.len(), 4);
    let almost = "x".repeat(199);
    let kept = generate_suggestions("contains", &sv, &almost);
    assert_eq!(kept.len(), 5);
}

#[test]
fn suggestions_never_empty_for_any_keyword() {
    for kw in ["type", "minimum", "format", "required", "unheardOf", "", "unknown"] {
        assert!(!generate_suggestions(kw, &JsonValue::Null, "").is_empty(), "keyword {}", kw);
    }
}

#[test]
fn render_escapes_the_named_short_set() {
    assert_eq!(JsonValue::Str("a\"b".to_string()).render(), "\"a\\\"b\"");
    assert_eq!(JsonValue::Str("a\\b".to_string()).render(), "\"a\\\\b\"");
    assert_eq!(JsonValue::Str("\n\r\t".to_string()).render(), "\"\\n\\r\\t\"");
    assert_eq!(
        JsonValue::Str("\u{8}\u{c}".to_string()).render(),
        "\"\\b\\f\""
    );
}

#[test]
fn render_escapes_other_control_characters_as_hex() {
    assert_eq!(
        JsonValue::Str("\u{1}\u{1f}".to_string()).render(),
        "\"\\u0001\\u001f\""
    );
    assert_eq!(
        generate_suggestions("pattern", &JsonValue::Str("^a\u{b}$".to_string()), ""),
        vec!["String must match pattern: \"^a\\u000b$\"".to_string()]
    );
}
