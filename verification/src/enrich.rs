//! The enrichment engine's composition: from one raw failure to one
//! complete enriched record, and over a whole failure list. Every
//! lookup that can fail degrades to a documented sentinel, so each raw
//! failure always yields a full record.

use vstd::prelude::*;
use crate::annotations::{extract_annotations, spec_annotations};
use crate::constraint::{get_schema_constraint_value, spec_constraint};
use crate::context::{build_error_context, spec_context};
use crate::failure::{ErrorDetailView, ValidationErrorDetail, VerboseValidationErrorDetail,
    VerboseDetailView};
use crate::json::{Json, JsonValue};
use crate::keyword::{extract_keyword, spec_keyword};
use crate::pointer::{get_value_at_path, spec_resolve};
use crate::suggest::{generate_suggestions, spec_suggestions};

verus! {

/// The value the instance holds at the failure's path; `null` where
/// the path resolves to nothing.
pub open spec fn spec_instance_value(instance: Json, instance_path: Seq<char>) -> Json {
    match spec_resolve(instance, instance_path) {
        Some(v) => v,
        None => Json::Null,
    }
}

/// The complete enrichment of one raw failure.
pub open spec fn spec_enrich(schema: Json, instance: Json, f: ErrorDetailView) -> VerboseDetailView {
    let kw = spec_keyword(f.schema_path);
    let iv = spec_instance_value(instance, f.instance_path);
    let sv = spec_constraint(schema, f.schema_path);
    VerboseDetailView {
        instance_path: f.instance_path,
        schema_path: f.schema_path,
        message: f.message,
        keyword: kw,
        instance_value: iv,
        schema_value: sv,
        context: spec_context(f.instance_path, f.schema_path, iv, sv, kw),
        annotations: spec_annotations(schema, f.instance_path, f.schema_path),
        suggestions: spec_suggestions(kw, sv, f.message),
    }
}

/// Every enriched record's fact sheet holds `expected` and `actual`
/// entries, whatever the documents and the raw failure.
pub proof fn lemma_enriched_context_complete(schema: Json, instance: Json, f: ErrorDetailView)
    ensures
        crate::json::has_key(spec_enrich(schema, instance, f).context, "expected"@),
        crate::json::has_key(spec_enrich(schema, instance, f).context, "actual"@),
{
    crate::context::lemma_context_completeness(
        f.instance_path,
        f.schema_path,
        spec_instance_value(instance, f.instance_path),
        spec_constraint(schema, f.schema_path),
        spec_keyword(f.schema_path),
    );
}

/// The two values a failure points at: the instance value at the
/// failure's instance path (`null` if unresolvable) and the schema
/// constraint value.
pub fn extract_values_from_error(
    failure: &ValidationErrorDetail,
    instance: &JsonValue,
    schema: &JsonValue,
) -> (r: (JsonValue, JsonValue))
    ensures
        r.0@ == spec_instance_value(instance@, failure.instance_path@),
        r.1@ == spec_constraint(schema@, failure.schema_path@),
{
    let instance_value = match get_value_at_path(instance, failure.instance_path.as_str()) {
        Some(v) => v,
        None => JsonValue::Null,
    };
    let schema_value = get_schema_constraint_value(schema, failure.schema_path.as_str());
    (instance_value, schema_value)
}

/// Enriches one raw failure against the schema and instance documents.
pub fn enrich_failure(
    schema: &JsonValue,
    instance: &JsonValue,
    failure: &ValidationErrorDetail,
) -> (r: VerboseValidationErrorDetail)
    ensures
        r@ == spec_enrich(schema@, instance@, failure@),
{
    let keyword = extract_keyword(failure.schema_path.as_str());
    let values = extract_values_from_error(failure, instance, schema);
    let context = build_error_context(failure, &values.0, &values.1, keyword.as_str());
    let annotations = extract_annotations(schema, failure);
    let suggestions = generate_suggestions(keyword.as_str(), &values.1, failure.message.as_str());
    VerboseValidationErrorDetail {
        instance_path: failure.instance_path.clone(),
        schema_path: failure.schema_path.clone(),
        message: failure.message.clone(),
        keyword,
        instance_value: values.0,
        schema_value: values.1,
        context,
        annotations,
        suggestions,
    }
}

/// Enriches a whole failure list, record for record and in order.
#[verifier::loop_isolation(false)]
pub fn enrich_failures(
    schema: &JsonValue,
    instance: &JsonValue,
    failures: &Vec<ValidationErrorDetail>,
) -> (r: Vec<VerboseValidationErrorDetail>)
    ensures
        r@.len() == failures@.len(),
        forall|i: int|
            0 <= i < r@.len() ==> r@[i]@ == spec_enrich(schema@, instance@, failures@[i]@),
{
    let mut out: Vec<VerboseValidationErrorDetail> = Vec::new();
    let mut i: usize = 0;
    while i < failures.len()
        invariant
            i <= failures@.len(),
            out@.len() == i,
            forall|j: int|
                0 <= j < i ==> out@[j]@ == spec_enrich(schema@, instance@, failures@[j]@),
        decreases failures@.len() - i,
    {
        out.push(enrich_failure(schema, instance, &failures[i]));
        i += 1;
    }
    out
}

} // verus!
