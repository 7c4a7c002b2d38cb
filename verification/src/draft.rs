//! Draft detection: a schema's `$schema` URL is matched by substring
//! against the known draft identifiers, earlier drafts first; anything
//! unrecognized or absent falls through to the newest supported draft.
//! A pure classification with no failure path.

use vstd::prelude::*;
use crate::json::{json_get, Json, JsonValue};
use crate::strutil::{contains_sub, str_contains};

verus! {

/// A revision of the JSON Schema specification, or `Auto` for letting
/// the validation engine choose from the schema itself.
#[derive(Clone, Copy, Debug, PartialEq, Eq, Structural)]
pub enum DraftVersion {
    Auto,
    Draft4,
    Draft6,
    Draft7,
    Draft201909,
    Draft202012,
}

/// The draft a `$schema` URL names, checked in draft order.
pub open spec fn spec_draft_of_url(url: Seq<char>) -> DraftVersion {
    if contains_sub(url, "draft-04"@) || contains_sub(url, "draft/04"@) {
        DraftVersion::Draft4
    } else if contains_sub(url, "draft-06"@) || contains_sub(url, "draft/06"@) {
        DraftVersion::Draft6
    } else if contains_sub(url, "draft-07"@) || contains_sub(url, "draft/07"@) {
        DraftVersion::Draft7
    } else if contains_sub(url, "2019-09"@) {
        DraftVersion::Draft201909
    } else if contains_sub(url, "2020-12"@) {
        DraftVersion::Draft202012
    } else {
        DraftVersion::Draft202012
    }
}

/// The draft a schema document declares; the newest supported draft
/// when `$schema` is absent or not a string.
pub open spec fn spec_detect_draft(schema: Json) -> DraftVersion {
    match json_get(schema, "$schema"@) {
        Some(url) => match url {
            Json::Str(s) => spec_draft_of_url(s),
            _ => DraftVersion::Draft202012,
        },
        None => DraftVersion::Draft202012,
    }
}

/// Detects the draft a parsed schema document declares.
pub fn detect_draft(schema: &JsonValue) -> (r: DraftVersion)
    ensures
        r == spec_detect_draft(schema@),
{
    match schema.get("$schema") {
        Some(url) => match url {
            JsonValue::Str(s) => {
                let u = s.as_str();
                if str_contains(u, "draft-04") || str_contains(u, "draft/04") {
                    DraftVersion::Draft4
                } else if str_contains(u, "draft-06") || str_contains(u, "draft/06") {
                    DraftVersion::Draft6
                } else if str_contains(u, "draft-07") || str_contains(u, "draft/07") {
                    DraftVersion::Draft7
                } else if str_contains(u, "2019-09") {
                    DraftVersion::Draft201909
                } else if str_contains(u, "2020-12") {
                    DraftVersion::Draft202012
                } else {
                    DraftVersion::Draft202012
                }
            },
            _ => DraftVersion::Draft202012,
        },
        None => DraftVersion::Draft202012,
    }
}

} // verus!
