//! The failure records: the raw failure as the external validation
//! engine reports it, and the enriched record this library builds
//! from it.

use vstd::prelude::*;
use crate::json::{obj_view, Json, JsonValue};
use crate::strutil::segs_view;

verus! {

/// One structural validation failure, as the engine reports it.
#[derive(Clone, Debug)]
pub struct ValidationErrorDetail {
    pub instance_path: String,
    pub schema_path: String,
    pub message: String,
}

/// Model of a raw failure.
pub struct ErrorDetailView {
    pub instance_path: Seq<char>,
    pub schema_path: Seq<char>,
    pub message: Seq<char>,
}

impl View for ValidationErrorDetail {
    type V = ErrorDetailView;

    open spec fn view(&self) -> ErrorDetailView {
        ErrorDetailView {
            instance_path: self.instance_path@,
            schema_path: self.schema_path@,
            message: self.message@,
        }
    }
}

/// A raw failure together with everything the enrichment engine
/// reconstructs from it: keyword, the values at both paths, the
/// expected-versus-actual fact sheet, schema annotations, and
/// remediation suggestions.
#[derive(Debug)]
pub struct VerboseValidationErrorDetail {
    pub instance_path: String,
    pub schema_path: String,
    pub message: String,
    pub keyword: String,
    pub instance_value: JsonValue,
    pub schema_value: JsonValue,
    pub context: Vec<(String, JsonValue)>,
    pub annotations: Vec<(String, JsonValue)>,
    pub suggestions: Vec<String>,
}

/// Model of an enriched failure.
pub struct VerboseDetailView {
    pub instance_path: Seq<char>,
    pub schema_path: Seq<char>,
    pub message: Seq<char>,
    pub keyword: Seq<char>,
    pub instance_value: Json,
    pub schema_value: Json,
    pub context: Seq<(Seq<char>, Json)>,
    pub annotations: Seq<(Seq<char>, Json)>,
    pub suggestions: Seq<Seq<char>>,
}

impl View for VerboseValidationErrorDetail {
    type V = VerboseDetailView;

    open spec fn view(&self) -> VerboseDetailView {
        VerboseDetailView {
            instance_path: self.instance_path@,
            schema_path: self.schema_path@,
            message: self.message@,
            keyword: self.keyword@,
            instance_value: self.instance_value@,
            schema_value: self.schema_value@,
            context: obj_view(self.context@),
            annotations: obj_view(self.annotations@),
            suggestions: segs_view(self.suggestions@),
        }
    }
}

} // verus!
