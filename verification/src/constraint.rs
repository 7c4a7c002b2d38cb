//! The schema constraint extractor: locates the literal constraint
//! value a failure violated. `type`, `pattern` and `required` failures
//! point at the keyword name itself, so their values are always read
//! off the parent object, with a keyword-specific fallback whenever
//! the parent or the property is absent; for every other keyword the
//! value is the node the failure's schema path resolves to, returned
//! verbatim, with a sentinel when the path resolves to nothing.

use vstd::prelude::*;
use crate::json::{json_get, str_eq, Json, JsonValue};
use crate::keyword::{extract_keyword, spec_keyword};
use crate::pointer::{get_value_at_path, spec_resolve};
use crate::strutil::{parent_of, parent_path};

verus! {

/// The named property of the parent of the failing schema node, or
/// `fallback` when the parent or the property is absent.
pub open spec fn parent_prop_or(
    schema: Json,
    schema_path: Seq<char>,
    prop: Seq<char>,
    fallback: Json,
) -> Json {
    match spec_resolve(schema, parent_path(schema_path)) {
        Some(parent) => match json_get(parent, prop) {
            Some(v) => v,
            None => fallback,
        },
        None => fallback,
    }
}

/// The constraint value for a failure at `schema_path`, with the
/// documented sentinels where nothing can be located.
pub open spec fn spec_constraint(schema: Json, schema_path: Seq<char>) -> Json {
    let kw = spec_keyword(schema_path);
    if kw == "type"@ {
        parent_prop_or(schema, schema_path, "type"@, Json::Str("unknown"@))
    } else if kw == "pattern"@ {
        parent_prop_or(schema, schema_path, "pattern"@, Json::Str("unknown pattern"@))
    } else if kw == "required"@ {
        parent_prop_or(schema, schema_path, "required"@, Json::Arr(Seq::empty()))
    } else {
        match spec_resolve(schema, schema_path) {
            Some(loc) => loc,
            None => Json::Str("unknown constraint"@),
        }
    }
}

fn parent_prop(schema: &JsonValue, schema_path: &str, prop: &str, fallback: JsonValue) -> (r:
    JsonValue)
    ensures
        r@ == parent_prop_or(schema@, schema_path@, prop@, fallback@),
{
    let pp = parent_of(schema_path);
    match get_value_at_path(schema, pp.as_str()) {
        Some(parent) => match parent.get(prop) {
            Some(v) => v.deep_copy(),
            None => fallback,
        },
        None => fallback,
    }
}

/// Locates the constraint value a failure at `schema_path` violated.
pub fn get_schema_constraint_value(schema: &JsonValue, schema_path: &str) -> (r: JsonValue)
    ensures
        r@ == spec_constraint(schema@, schema_path@),
{
    let kw = extract_keyword(schema_path);
    if str_eq(kw.as_str(), "type") {
        parent_prop(schema, schema_path, "type", JsonValue::Str("unknown".to_owned()))
    } else if str_eq(kw.as_str(), "pattern") {
        parent_prop(schema, schema_path, "pattern", JsonValue::Str("unknown pattern".to_owned()))
    } else if str_eq(kw.as_str(), "required") {
        let empty: Vec<JsonValue> = Vec::new();
        proof {
            crate::json::lemma_arr_view(empty@);
            assert(crate::json::arr_view(empty@) =~= Seq::<Json>::empty());
        }
        parent_prop(schema, schema_path, "required", JsonValue::Arr(empty))
    } else {
        match get_value_at_path(schema, schema_path) {
            Some(loc) => loc,
            None => JsonValue::Str("unknown constraint".to_owned()),
        }
    }
}

} // verus!
