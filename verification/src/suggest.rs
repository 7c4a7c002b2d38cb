//! The suggestion generator: per-keyword remediation hints built from
//! the literal constraint value. `format` failures are special-cased
//! on the engine's message text; unrecognized keywords get a generic
//! bundle that names the constraint, states the expected value, adds
//! two troubleshooting lines, and echoes a short engine message.

use vstd::prelude::*;
use crate::json::{render_json, str_eq, Json, JsonValue};
use crate::strutil::{concat2, concat3, contains_sub, segs_view, str_contains};

verus! {

broadcast use crate::strutil::lemma_segs_view_push;

/// The suggestion list for a failure: `kw` its keyword, `sv` the
/// constraint value located in the schema, `message` the engine's text.
pub open spec fn spec_suggestions(kw: Seq<char>, sv: Json, message: Seq<char>) -> Seq<Seq<char>> {
    if kw == "type"@ {
        let expected = match sv {
            Json::Str(s) => s,
            _ => "unknown"@,
        };
        seq!["Expected type: "@ + expected]
    } else if kw == "minimum"@ {
        seq!["Value must be >= "@ + render_json(sv)]
    } else if kw == "maximum"@ {
        seq!["Value must be <= "@ + render_json(sv)]
    } else if kw == "minLength"@ {
        seq!["String must be at least "@ + render_json(sv) + " characters"@]
    } else if kw == "maxLength"@ {
        seq!["String must be at most "@ + render_json(sv) + " characters"@]
    } else if kw == "pattern"@ {
        seq!["String must match pattern: "@ + render_json(sv)]
    } else if kw == "format"@ {
        if contains_sub(message, "email"@) {
            seq!["Use valid email format: user@domain.com"@]
        } else {
            seq!["Check the format requirements"@]
        }
    } else if kw == "required"@ {
        seq!["Add the missing required property"@]
    } else if kw == "minItems"@ {
        seq!["Array must have at least "@ + render_json(sv) + " items"@]
    } else if kw == "maxItems"@ {
        seq!["Array must have at most "@ + render_json(sv) + " items"@]
    } else if kw == "enum"@ {
        seq!["Value must be one of: "@ + render_json(sv)]
    } else if kw == "const"@ {
        seq!["Value must be exactly: "@ + render_json(sv)]
    } else if kw == "uniqueItems"@ {
        seq!["Array items must be unique"@]
    } else if kw == "multipleOf"@ {
        seq!["Value must be a multiple of "@ + render_json(sv)]
    } else {
        let base = seq![
            "Validation failed for '"@ + kw + "' constraint"@,
            "Expected: "@ + render_json(sv),
            "Check the schema documentation for this constraint"@,
            "Verify your data matches the expected format"@,
        ];
        if message.len() > 0 && message.len() < 200 {
            base.push("Error details: "@ + message)
        } else {
            base
        }
    }
}

/// Whatever the keyword — recognized or not — and whatever the
/// constraint value and message, at least one suggestion is produced.
pub proof fn lemma_suggestions_nonempty(kw: Seq<char>, sv: Json, message: Seq<char>)
    ensures
        spec_suggestions(kw, sv, message).len() >= 1,
{
}

fn one(s: String) -> (r: Vec<String>)
    ensures
        segs_view(r@) == seq![s@],
{
    let mut v: Vec<String> = Vec::new();
    v.push(s);
    proof {
        assert(segs_view(v@) =~= seq![s@]);
    }
    v
}

/// Generates the remediation hints for one failure.
pub fn generate_suggestions(keyword: &str, schema_value: &JsonValue, message: &str) -> (r: Vec<
    String,
>)
    ensures
        segs_view(r@) == spec_suggestions(keyword@, schema_value@, message@),
{
    if str_eq(keyword, "type") {
        let expected = match schema_value {
            JsonValue::Str(s) => s.as_str(),
            _ => "unknown",
        };
        one(concat2("Expected type: ", expected))
    } else if str_eq(keyword, "minimum") {
        one(concat2("Value must be >= ", schema_value.render().as_str()))
    } else if str_eq(keyword, "maximum") {
        one(concat2("Value must be <= ", schema_value.render().as_str()))
    } else if str_eq(keyword, "minLength") {
        one(concat3("String must be at least ", schema_value.render().as_str(), " characters"))
    } else if str_eq(keyword, "maxLength") {
        one(concat3("String must be at most ", schema_value.render().as_str(), " characters"))
    } else if str_eq(keyword, "pattern") {
        one(concat2("String must match pattern: ", schema_value.render().as_str()))
    } else if str_eq(keyword, "format") {
        if str_contains(message, "email") {
            one("Use valid email format: user@domain.com".to_owned())
        } else {
            one("Check the format requirements".to_owned())
        }
    } else if str_eq(keyword, "required") {
        one("Add the missing required property".to_owned())
    } else if str_eq(keyword, "minItems") {
        one(concat3("Array must have at least ", schema_value.render().as_str(), " items"))
    } else if str_eq(keyword, "maxItems") {
        one(concat3("Array must have at most ", schema_value.render().as_str(), " items"))
    } else if str_eq(keyword, "enum") {
        one(concat2("Value must be one of: ", schema_value.render().as_str()))
    } else if str_eq(keyword, "const") {
        one(concat2("Value must be exactly: ", schema_value.render().as_str()))
    } else if str_eq(keyword, "uniqueItems") {
        one("Array items must be unique".to_owned())
    } else if str_eq(keyword, "multipleOf") {
        one(concat2("Value must be a multiple of ", schema_value.render().as_str()))
    } else {
        let mut suggestions: Vec<String> = Vec::new();
        suggestions.push(concat3("Validation failed for '", keyword, "' constraint"));
        suggestions.push(concat2("Expected: ", schema_value.render().as_str()));
        suggestions.push("Check the schema documentation for this constraint".to_owned());
        suggestions.push("Verify your data matches the expected format".to_owned());
        let mlen = message.unicode_len();
        if mlen > 0 && mlen < 200 {
            suggestions.push(concat2("Error details: ", message));
        }
        proof {
            assert(segs_view(suggestions@) =~= spec_suggestions(
                keyword@,
                schema_value@,
                message@,
            ));
        }
        suggestions
    }
}

} // verus!
