use ex_jsonschema::json::JsonValue;
use ex_jsonschema::{get_value_at_path, parse_document};

fn model(text: &str) -> JsonValue {
    parse_document(text).unwrap().model
}

#[test]
fn resolve_empty_path_is_root() {
    let doc = model("{\"a\": 1}");
    let expected = model("{\"a\": 1}");
    assert_eq!(get_value_at_path(&doc, ""), Some(expected));
}

#[test]
fn resolve_bare_slash_is_root() {
    let doc = model("[1, 2]");
    let expected = model("[1, 2]");
    assert_eq!(get_value_at_path(&doc, "/"), Some(expected));
}

#[test]
fn resolve_object_key() {
    let doc = model("{\"a\": {\"b\": \"x\"}}");
    assert_eq!(
        get_value_at_path(&doc, "/a/b"),
        Some(JsonValue::Str("x".to_string()))
    );
}

#[test]
fn resolve_array_index() {
    let doc = model("{\"a\": [10, 20, 30]}");
    assert_eq!(
        get_value_at_path(&doc, "/a/1"),
        Some(JsonValue::Num("20".to_string()))
    );
}

#[test]
fn resolve_path_without_leading_slash() {
    let doc = model("{\"a\": {\"b\": true}}");
    assert_eq!(
        get_value_at_path(&doc, "a/b"),
        Some(JsonValue::Bool(true))
    );
}

#[test]
fn resolve_missing_key_is_none() {
    let doc = model("{\"a\": 1}");
    assert_eq!(get_value_at_path(&doc, "/b"), None);
}

#[test]
fn resolve_out_of_range_index_is_none() {
    let doc = model("[1, 2]");
    assert_eq!(get_value_at_path(&doc, "/2"), None);
}

#[test]
fn resolve_non_numeric_index_is_none() {
    let doc = model("[1, 2]");
    assert_eq!(get_value_at_path(&doc, "/one"), None);
    assert_eq!(get_value_at_path(&doc, "/+1"), None);
    assert_eq!(get_value_at_path(&doc, "/-1"), None);
}

#[test]
fn resolve_into_scalar_is_none() {
    let doc = model("{\"a\": 5}");
    assert_eq!(get_value_at_path(&doc, "/a/b"), None);
}

#[test]
fn resolve_arbitrary_strings_return_not_found() {
    let doc = model("{\"a\": [1], \"b\": {\"c\": null}}");
    for path in [
        "///",
        "/a/99999999999999999999999999999999",
        "/a/00/x",
        "/b//",
        "/b/c/d/e",
        "no-such",
        "/\u{1F600}/weird",
        "/a/1e3",
    ] {
        assert_eq!(get_value_at_path(&doc, path), None, "path {:?}", path);
    }
}

#[test]
fn resolve_index_with_leading_zeros() {
    // Segments are read with an ordinary integer parse, so "01" is index 1.
    let doc = model("[\"x\", \"y\"]");
    assert_eq!(
        get_value_at_path(&doc, "/01"),
        Some(JsonValue::Str("y".to_string()))
    );
}

#[test]
fn resolve_multi_digit_index() {
    let doc = model("[0,1,2,3,4,5,6,7,8,9,10,11]");
    assert_eq!(
        get_value_at_path(&doc, "/11"),
        Some(JsonValue::Num("11".to_string()))
    );
    assert_eq!(get_value_at_path(&doc, "/12"), None);
}

#[test]
fn pointer_round_trip_over_existing_keys() {
    // A path assembled from existing keys and indices resolves to the
    // sub-value a manual walk finds.
    let doc = model("{\"users\": [{\"name\": \"ada\"}, {\"name\": \"bob\"}]}");
    let path = "/users/1/name";
    let step1 = get_value_at_path(&doc, "/users").unwrap();
    let step2 = get_value_at_path(&step1, "/1").unwrap();
    let step3 = get_value_at_path(&step2, "/name").unwrap();
    assert_eq!(get_value_at_path(&doc, path), Some(step3));
    assert_eq!(
        get_value_at_path(&doc, path),
        Some(JsonValue::Str("bob".to_string()))
    );
}
