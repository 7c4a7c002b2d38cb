//! The keyword classifier: the violated keyword is the final
//! `/`-delimited segment of a failure's schema path. Recognized
//! keywords (type, minimum, pattern, ...) are their own names, and an
//! unrecognized segment is still returned verbatim rather than being
//! collapsed, so no information is lost; only a genuinely empty schema
//! path classifies as `"unknown"`.

use vstd::prelude::*;
use crate::strutil::{last_segment, last_segment_of};

verus! {

/// The classification of a schema path.
pub open spec fn spec_keyword(schema_path: Seq<char>) -> Seq<char> {
    if schema_path.len() == 0 {
        "unknown"@
    } else {
        last_segment(schema_path)
    }
}

/// Classifies a failure's schema path.
pub fn extract_keyword(schema_path: &str) -> (r: String)
    ensures
        r@ == spec_keyword(schema_path@),
{
    if schema_path.unicode_len() == 0 {
        "unknown".to_owned()
    } else {
        last_segment_of(schema_path)
    }
}

} // verus!
