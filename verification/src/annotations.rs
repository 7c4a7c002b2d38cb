//! The annotation extractor: descriptive metadata for a failure. A
//! failure's schema path ends in the violated keyword, so the failing
//! subschema sits one segment up: that node contributes `title`,
//! `description`, `examples` and `default` (those present). Its parent
//! schema — one nesting level above, past the keyword map that holds
//! the node, so two more segments up — contributes `title` and
//! `description` under a `parent_` prefix. Every record carries
//! `error_keyword` and `validation_failed_at`; no deeper ancestor is
//! walked.

use vstd::prelude::*;
use crate::failure::ValidationErrorDetail;
use crate::json::{json_get, obj_view, Json, JsonValue};
use crate::keyword::{extract_keyword, spec_keyword};
use crate::pointer::{get_value_at_path, spec_resolve};
use crate::strutil::{parent_of, parent_path};

verus! {

broadcast use crate::json::lemma_obj_view_push;

/// The named property of `node` as a one-entry annotation under
/// `out_key`, or nothing when absent (or `node` is not an object).
pub open spec fn ann_opt(node: Json, prop: Seq<char>, out_key: Seq<char>) -> Seq<
    (Seq<char>, Json),
> {
    match json_get(node, prop) {
        Some(v) => seq![(out_key, v)],
        None => Seq::empty(),
    }
}

/// Every annotation for a failure at `schema_path`, in order: the
/// failing node's own, the parent's prefixed pair, then the two
/// always-present metadata entries.
pub open spec fn spec_annotations(
    schema: Json,
    instance_path: Seq<char>,
    schema_path: Seq<char>,
) -> Seq<(Seq<char>, Json)> {
    let node_path = parent_path(schema_path);
    let node_part = match spec_resolve(schema, node_path) {
        Some(loc) => ann_opt(loc, "title"@, "title"@) + ann_opt(loc, "description"@, "description"@)
            + ann_opt(loc, "examples"@, "examples"@) + ann_opt(loc, "default"@, "default"@),
        None => Seq::empty(),
    };
    let parent_part = if node_path.len() > 0 {
        match spec_resolve(schema, parent_path(parent_path(node_path))) {
            Some(ploc) => ann_opt(ploc, "title"@, "parent_title"@) + ann_opt(
                ploc,
                "description"@,
                "parent_description"@,
            ),
            None => Seq::empty(),
        }
    } else {
        Seq::empty()
    };
    node_part + parent_part + seq![
        ("error_keyword"@, Json::Str(spec_keyword(schema_path))),
        ("validation_failed_at"@, Json::Str(instance_path)),
    ]
}

/// Whatever the schema and failure, the annotation set carries the
/// `error_keyword` and `validation_failed_at` metadata entries.
pub proof fn lemma_annotations_metadata(
    schema: Json,
    instance_path: Seq<char>,
    schema_path: Seq<char>,
)
    ensures
        crate::json::has_key(spec_annotations(schema, instance_path, schema_path), "error_keyword"@),
        crate::json::has_key(
            spec_annotations(schema, instance_path, schema_path),
            "validation_failed_at"@,
        ),
{
    let anns = spec_annotations(schema, instance_path, schema_path);
    assert(anns[anns.len() - 2].0 == "error_keyword"@);
    assert(anns[anns.len() - 1].0 == "validation_failed_at"@);
}

fn push_ann(out: &mut Vec<(String, JsonValue)>, node: &JsonValue, prop: &str, out_key: &str)
    ensures
        obj_view(final(out)@) == obj_view(old(out)@) + ann_opt(node@, prop@, out_key@),
{
    match node.get(prop) {
        Some(v) => {
            out.push((out_key.to_owned(), v.deep_copy()));
            proof {
                assert(obj_view(out@) =~= obj_view(old(out)@) + ann_opt(node@, prop@, out_key@));
            }
        },
        None => {
            proof {
                assert(obj_view(out@) =~= obj_view(old(out)@) + ann_opt(node@, prop@, out_key@));
            }
        },
    }
}

/// Collects the annotations for one failure.
pub fn extract_annotations(schema: &JsonValue, failure: &ValidationErrorDetail) -> (r: Vec<
    (String, JsonValue),
>)
    ensures
        obj_view(r@) == spec_annotations(schema@, failure.instance_path@, failure.schema_path@),
{
    let mut annotations: Vec<(String, JsonValue)> = Vec::new();
    let node_path = parent_of(failure.schema_path.as_str());
    match get_value_at_path(schema, node_path.as_str()) {
        Some(loc) => {
            push_ann(&mut annotations, &loc, "title", "title");
            push_ann(&mut annotations, &loc, "description", "description");
            push_ann(&mut annotations, &loc, "examples", "examples");
            push_ann(&mut annotations, &loc, "default", "default");
        },
        None => {},
    }
    if node_path.as_str().unicode_len() > 0 {
        let above = parent_of(node_path.as_str());
        let parent_schema_path = parent_of(above.as_str());
        match get_value_at_path(schema, parent_schema_path.as_str()) {
            Some(ploc) => {
                push_ann(&mut annotations, &ploc, "title", "parent_title");
                push_ann(&mut annotations, &ploc, "description", "parent_description");
            },
            None => {},
        }
    }
    let kw = extract_keyword(failure.schema_path.as_str());
    annotations.push(("error_keyword".to_owned(), JsonValue::Str(kw)));
    annotations.push(
        ("validation_failed_at".to_owned(), JsonValue::Str(failure.instance_path.clone())),
    );
    proof {
        assert(obj_view(annotations@) =~= spec_annotations(
            schema@,
            failure.instance_path@,
            failure.schema_path@,
        ));
    }
    annotations
}

} // verus!
