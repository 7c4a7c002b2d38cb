//! The context builder: a per-keyword "expected vs actual" fact sheet.
//! Every context holds the two raw paths and, whatever the keyword,
//! `expected` and `actual` entries; the recognized keywords add their
//! own auxiliary keys. Downstream consumers key off these exact names.

use vstd::prelude::*;
use crate::failure::ValidationErrorDetail;
use crate::strutil::concat2;
use crate::json::{
    dec_str, kind_name, obj_view, render_json, spec_kind_name, str_eq, usize_to_string, Json,
    JsonValue,
};

verus! {

broadcast use crate::json::lemma_obj_view_push;

/// The length, in characters, of a string instance; zero otherwise.
pub open spec fn str_len_of(j: Json) -> nat {
    match j {
        Json::Str(s) => s.len(),
        _ => 0,
    }
}

/// The length of an array instance; zero otherwise.
pub open spec fn arr_len_of(j: Json) -> nat {
    match j {
        Json::Arr(items) => items.len(),
        _ => 0,
    }
}

/// The keyword-specific part of the fact sheet.
pub open spec fn spec_context_tail(iv: Json, sv: Json, kw: Seq<char>) -> Seq<(Seq<char>, Json)> {
    if kw == "type"@ {
        seq![
            ("expected_type"@, sv),
            ("actual_type"@, Json::Str(spec_kind_name(iv))),
            ("expected"@, Json::Str("type: "@ + render_json(sv))),
            ("actual"@, iv),
        ]
    } else if kw == "minimum"@ {
        seq![
            ("minimum_value"@, sv),
            ("actual_value"@, iv),
            ("expected"@, Json::Str("value >= "@ + render_json(sv))),
            ("actual"@, iv),
        ]
    } else if kw == "maximum"@ {
        seq![
            ("maximum_value"@, sv),
            ("actual_value"@, iv),
            ("expected"@, Json::Str("value <= "@ + render_json(sv))),
            ("actual"@, iv),
        ]
    } else if kw == "minLength"@ {
        seq![
            ("minimum_length"@, sv),
            ("actual_length"@, Json::Num(dec_str(str_len_of(iv)))),
            ("expected"@, Json::Str("length >= "@ + render_json(sv))),
            ("actual"@, Json::Str("length: "@ + dec_str(str_len_of(iv)))),
        ]
    } else if kw == "maxLength"@ {
        seq![
            ("maximum_length"@, sv),
            ("actual_length"@, Json::Num(dec_str(str_len_of(iv)))),
            ("expected"@, Json::Str("length <= "@ + render_json(sv))),
            ("actual"@, Json::Str("length: "@ + dec_str(str_len_of(iv)))),
        ]
    } else if kw == "pattern"@ {
        seq![
            ("pattern"@, sv),
            ("value"@, iv),
            ("expected"@, Json::Str("match pattern: "@ + render_json(sv))),
            ("actual"@, iv),
        ]
    } else if kw == "required"@ {
        seq![
            ("required_properties"@, sv),
            ("expected"@, Json::Str("all required properties present"@)),
            ("actual"@, Json::Str("missing required property"@)),
        ]
    } else if kw == "minItems"@ {
        seq![
            ("minimum_items"@, sv),
            ("actual_items"@, Json::Num(dec_str(arr_len_of(iv)))),
            ("expected"@, Json::Str("items >= "@ + render_json(sv))),
            ("actual"@, iv),
        ]
    } else if kw == "maxItems"@ {
        seq![
            ("maximum_items"@, sv),
            ("actual_items"@, Json::Num(dec_str(arr_len_of(iv)))),
            ("expected"@, Json::Str("items <= "@ + render_json(sv))),
            ("actual"@, iv),
        ]
    } else {
        seq![
            ("constraint"@, sv),
            ("expected"@, Json::Str("constraint satisfied"@)),
            ("actual"@, iv),
        ]
    }
}

/// The whole fact sheet: the raw paths, then the keyword's entries.
pub open spec fn spec_context(
    instance_path: Seq<char>,
    schema_path: Seq<char>,
    iv: Json,
    sv: Json,
    kw: Seq<char>,
) -> Seq<(Seq<char>, Json)> {
    seq![
        ("instance_path"@, Json::Str(instance_path)),
        ("schema_path"@, Json::Str(schema_path)),
    ] + spec_context_tail(iv, sv, kw)
}

/// Context completeness: whatever the keyword — in the recognized set
/// or not — and whatever the instance and schema values, the fact
/// sheet holds an `expected` and an `actual` entry.
pub proof fn lemma_context_completeness(
    instance_path: Seq<char>,
    schema_path: Seq<char>,
    iv: Json,
    sv: Json,
    kw: Seq<char>,
)
    ensures
        crate::json::has_key(spec_context(instance_path, schema_path, iv, sv, kw), "expected"@),
        crate::json::has_key(spec_context(instance_path, schema_path, iv, sv, kw), "actual"@),
{
    let ctx = spec_context(instance_path, schema_path, iv, sv, kw);
    if kw == "required"@ || !(kw == "type"@ || kw == "minimum"@ || kw == "maximum"@ || kw
        == "minLength"@ || kw == "maxLength"@ || kw == "pattern"@ || kw == "minItems"@ || kw
        == "maxItems"@) {
        assert(ctx[ctx.len() - 2].0 == "expected"@);
        assert(ctx[ctx.len() - 1].0 == "actual"@);
    } else {
        assert(ctx[4].0 == "expected"@);
        assert(ctx[5].0 == "actual"@);
    }
}

fn instance_str_len(instance_value: &JsonValue) -> (r: usize)
    ensures
        r == str_len_of(instance_value@),
{
    match instance_value {
        JsonValue::Str(s) => s.as_str().unicode_len(),
        _ => 0,
    }
}

fn instance_arr_len(instance_value: &JsonValue) -> (r: usize)
    ensures
        r == arr_len_of(instance_value@),
{
    match instance_value {
        JsonValue::Arr(items) => {
            proof {
                crate::json::lemma_arr_view(items@);
            }
            items.len()
        },
        _ => 0,
    }
}

/// Builds the fact sheet for one failure.
pub fn build_error_context(
    failure: &ValidationErrorDetail,
    instance_value: &JsonValue,
    schema_value: &JsonValue,
    keyword: &str,
) -> (r: Vec<(String, JsonValue)>)
    ensures
        obj_view(r@) == spec_context(
            failure.instance_path@,
            failure.schema_path@,
            instance_value@,
            schema_value@,
            keyword@,
        ),
{
    let mut ctx: Vec<(String, JsonValue)> = Vec::new();
    ctx.push(("instance_path".to_owned(), JsonValue::Str(failure.instance_path.clone())));
    ctx.push(("schema_path".to_owned(), JsonValue::Str(failure.schema_path.clone())));
    if str_eq(keyword, "type") {
        ctx.push(("expected_type".to_owned(), schema_value.deep_copy()));
        ctx.push(("actual_type".to_owned(), JsonValue::Str(kind_name(instance_value).to_owned())));
        let expected = concat2("type: ", schema_value.render().as_str());
        ctx.push(("expected".to_owned(), JsonValue::Str(expected)));
        ctx.push(("actual".to_owned(), instance_value.deep_copy()));
    } else if str_eq(keyword, "minimum") {
        ctx.push(("minimum_value".to_owned(), schema_value.deep_copy()));
        ctx.push(("actual_value".to_owned(), instance_value.deep_copy()));
        let expected = concat2("value >= ", schema_value.render().as_str());
        ctx.push(("expected".to_owned(), JsonValue::Str(expected)));
        ctx.push(("actual".to_owned(), instance_value.deep_copy()));
    } else if str_eq(keyword, "maximum") {
        ctx.push(("maximum_value".to_owned(), schema_value.deep_copy()));
        ctx.push(("actual_value".to_owned(), instance_value.deep_copy()));
        let expected = concat2("value <= ", schema_value.render().as_str());
        ctx.push(("expected".to_owned(), JsonValue::Str(expected)));
        ctx.push(("actual".to_owned(), instance_value.deep_copy()));
    } else if str_eq(keyword, "minLength") {
        let actual_length = instance_str_len(instance_value);
        ctx.push(("minimum_length".to_owned(), schema_value.deep_copy()));
        ctx.push(("actual_length".to_owned(), JsonValue::Num(usize_to_string(actual_length))));
        let expected = concat2("length >= ", schema_value.render().as_str());
        ctx.push(("expected".to_owned(), JsonValue::Str(expected)));
        let actual = concat2("length: ", usize_to_string(actual_length).as_str());
        ctx.push(("actual".to_owned(), JsonValue::Str(actual)));
    } else if str_eq(keyword, "maxLength") {
        let actual_length = instance_str_len(instance_value);
        ctx.push(("maximum_length".to_owned(), schema_value.deep_copy()));
        ctx.push(("actual_length".to_owned(), JsonValue::Num(usize_to_string(actual_length))));
        let expected = concat2("length <= ", schema_value.render().as_str());
        ctx.push(("expected".to_owned(), JsonValue::Str(expected)));
        let actual = concat2("length: ", usize_to_string(actual_length).as_str());
        ctx.push(("actual".to_owned(), JsonValue::Str(actual)));
    } else if str_eq(keyword, "pattern") {
        ctx.push(("pattern".to_owned(), schema_value.deep_copy()));
        ctx.push(("value".to_owned(), instance_value.deep_copy()));
        let expected = concat2("match pattern: ", schema_value.render().as_str());
        ctx.push(("expected".to_owned(), JsonValue::Str(expected)));
        ctx.push(("actual".to_owned(), instance_value.deep_copy()));
    } else if str_eq(keyword, "required") {
        ctx.push(("required_properties".to_owned(), schema_value.deep_copy()));
        ctx.push(
            ("expected".to_owned(), JsonValue::Str("all required properties present".to_owned())),
        );
        ctx.push(("actual".to_owned(), JsonValue::Str("missing required property".to_owned())));
    } else if str_eq(keyword, "minItems") {
        let actual_items = instance_arr_len(instance_value);
        ctx.push(("minimum_items".to_owned(), schema_value.deep_copy()));
        ctx.push(("actual_items".to_owned(), JsonValue::Num(usize_to_string(actual_items))));
        let expected = concat2("items >= ", schema_value.render().as_str());
        ctx.push(("expected".to_owned(), JsonValue::Str(expected)));
        ctx.push(("actual".to_owned(), instance_value.deep_copy()));
    } else if str_eq(keyword, "maxItems") {
        let actual_items = instance_arr_len(instance_value);
        ctx.push(("maximum_items".to_owned(), schema_value.deep_copy()));
        ctx.push(("actual_items".to_owned(), JsonValue::Num(usize_to_string(actual_items))));
        let expected = concat2("items <= ", schema_value.render().as_str());
        ctx.push(("expected".to_owned(), JsonValue::Str(expected)));
        ctx.push(("actual".to_owned(), instance_value.deep_copy()));
    } else {
        ctx.push(("constraint".to_owned(), schema_value.deep_copy()));
        ctx.push(("expected".to_owned(), JsonValue::Str("constraint satisfied".to_owned())));
        ctx.push(("actual".to_owned(), instance_value.deep_copy()));
    }
    proof {
        assert(obj_view(ctx@) =~= spec_context(
            failure.instance_path@,
            failure.schema_path@,
            instance_value@,
            schema_value@,
            keyword@,
        ));
    }
    ctx
}

} // verus!
