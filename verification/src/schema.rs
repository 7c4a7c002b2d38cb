//! The boundary with the external collaborators: the JSON parser
//! (serde_json) and the JSON Schema validation engine (jsonschema).
//! Each call into them stands behind a trusted item; everything the
//! engine returns is handed to the verified enrichment functions.

use vstd::prelude::*;
use crate::draft::DraftVersion;
use crate::enrich::{enrich_failures, spec_enrich};
use crate::failure::{ErrorDetailView, ValidationErrorDetail, VerboseDetailView,
    VerboseValidationErrorDetail};
use crate::json::JsonValue;

verus! {

#[verifier::external_type_specification]
#[verifier::external_body]
pub struct ExValue(serde_json::Value);

/// The engine's compiled validator, held opaquely: its generic bound
/// names cannot be declared here, so the whole handle is trusted.
#[verifier::external_body]
pub struct ValidatorHandle {
    inner: jsonschema::Validator,
}

/// Why a piece of text could not be read as JSON, with the position
/// when the parser gave one.
#[derive(Clone, Debug)]
pub struct ParseFailure {
    pub message: String,
    pub line: usize,
    pub column: usize,
}

/// A successfully parsed JSON document: the engine's own copy for
/// validation calls, plus the library's model of it.
pub struct ParsedJson {
    raw: serde_json::Value,
    pub model: JsonValue,
}

impl ParsedJson {
    /// The document this text parsed to.
    pub closed spec fn model_view(&self) -> crate::json::Json {
        self.model@
    }
}

/// What a piece of JSON text denotes: `Some` exactly when the external
/// parser accepts it. Uninterpreted; the parse wrapper below is its
/// only source.
pub uninterp spec fn parsed_json(s: Seq<char>) -> Option<crate::json::Json>;

/// Converts the external parser's representation into the library's
/// value type; only `parse_json` below uses it. A number becomes its
/// decimal text.
#[verifier::external_body]
fn to_model(v: &serde_json::Value) -> JsonValue {
    match v {
        serde_json::Value::Null => JsonValue::Null,
        serde_json::Value::Bool(b) => JsonValue::Bool(*b),
        serde_json::Value::Number(n) => JsonValue::Num(n.to_string()),
        serde_json::Value::String(s) => JsonValue::Str(s.clone()),
        serde_json::Value::Array(a) => JsonValue::Arr(a.iter().map(to_model).collect()),
        serde_json::Value::Object(o) => JsonValue::Obj(
            o.iter().map(|(k, w)| (k.clone(), to_model(w))).collect(),
        ),
    }
}

/// Relies on serde_json::from_str: whether text parses, and the
/// document it denotes, depend on the text alone.
#[verifier::external_body]
fn parse_json(s: &str) -> (r: Result<ParsedJson, ParseFailure>)
    ensures
        r is Ok <==> parsed_json(s@) is Some,
        r is Ok ==> r->Ok_0.model@ == parsed_json(s@)->Some_0,
{
    match serde_json::from_str::<serde_json::Value>(s) {
        Ok(v) => {
            let model = to_model(&v);
            Ok(ParsedJson { raw: v, model })
        },
        Err(e) => Err(
            ParseFailure { message: format!("Invalid JSON: {}", e), line: e.line(), column: e.column() },
        ),
    }
}

/// Relies on serde_json::Value::Null: the document that stands in for
/// unparsable instance text.
#[verifier::external_body]
fn null_document() -> (r: ParsedJson)
    ensures
        r.model@ == crate::json::Json::Null,
{
    ParsedJson { raw: serde_json::Value::Null, model: JsonValue::Null }
}

/// Relies on jsonschema::validator_for: compiles a validator with the
/// draft taken from the schema itself; success is the engine's decision.
#[verifier::external_body]
fn compile_auto(schema: &serde_json::Value) -> (r: Result<ValidatorHandle, String>) {
    match jsonschema::validator_for(schema) {
        Ok(v) => Ok(ValidatorHandle { inner: v }),
        Err(e) => Err(e.to_string()),
    }
}

/// Relies on jsonschema::draft4::new.
#[verifier::external_body]
fn compile_draft4(schema: &serde_json::Value) -> (r: Result<ValidatorHandle, String>) {
    match jsonschema::draft4::new(schema) {
        Ok(v) => Ok(ValidatorHandle { inner: v }),
        Err(e) => Err(e.to_string()),
    }
}

/// Relies on jsonschema::draft6::new.
#[verifier::external_body]
fn compile_draft6(schema: &serde_json::Value) -> (r: Result<ValidatorHandle, String>) {
    match jsonschema::draft6::new(schema) {
        Ok(v) => Ok(ValidatorHandle { inner: v }),
        Err(e) => Err(e.to_string()),
    }
}

/// Relies on jsonschema::draft7::new.
#[verifier::external_body]
fn compile_draft7(schema: &serde_json::Value) -> (r: Result<ValidatorHandle, String>) {
    match jsonschema::draft7::new(schema) {
        Ok(v) => Ok(ValidatorHandle { inner: v }),
        Err(e) => Err(e.to_string()),
    }
}

/// Relies on jsonschema::draft201909::new.
#[verifier::external_body]
fn compile_draft201909(schema: &serde_json::Value) -> (r: Result<ValidatorHandle, String>) {
    match jsonschema::draft201909::new(schema) {
        Ok(v) => Ok(ValidatorHandle { inner: v }),
        Err(e) => Err(e.to_string()),
    }
}

/// Relies on jsonschema::draft202012::new.
#[verifier::external_body]
fn compile_draft202012(schema: &serde_json::Value) -> (r: Result<ValidatorHandle, String>) {
    match jsonschema::draft202012::new(schema) {
        Ok(v) => Ok(ValidatorHandle { inner: v }),
        Err(e) => Err(e.to_string()),
    }
}

/// Relies on jsonschema::Validator::is_valid: the engine's structural
/// verdict on an instance.
#[verifier::external_body]
fn validator_is_valid(validator: &ValidatorHandle, instance: &serde_json::Value) -> bool {
    validator.inner.is_valid(instance)
}

/// Relies on jsonschema::Validator::iter_errors: each error's two
/// pointer paths and its message, collected as raw failure records.
#[verifier::external_body]
fn validator_errors(validator: &ValidatorHandle, instance: &serde_json::Value) -> Vec<
    ValidationErrorDetail,
> {
    validator
        .inner
        .iter_errors(instance)
        .map(|e| ValidationErrorDetail {
            instance_path: e.instance_path().to_string(),
            schema_path: e.schema_path().to_string(),
            message: e.to_string(),
        })
        .collect()
}

/// Parses JSON text into a document the library can both validate and
/// read.
pub fn parse_document(text: &str) -> (r: Result<ParsedJson, ParseFailure>)
    ensures
        r is Ok <==> parsed_json(text@) is Some,
        r is Ok ==> r->Ok_0.model_view() == parsed_json(text@)->Some_0,
{
    parse_json(text)
}

/// Everything that can go wrong between text and verdict.
#[derive(Debug)]
pub enum JsonSchemaError {
    JsonParseError(ParseFailure),
    CompilationError(String),
    ValidationError(Vec<ValidationErrorDetail>),
}

/// The raw failure a given enriched record echoes.
pub open spec fn raw_of(v: VerboseDetailView) -> ErrorDetailView {
    ErrorDetailView {
        instance_path: v.instance_path,
        schema_path: v.schema_path,
        message: v.message,
    }
}

/// The outcome of the verbose validation path on text.
#[derive(Debug)]
pub enum VerboseError {
    JsonParseError(ParseFailure),
    Failures(Vec<VerboseValidationErrorDetail>),
}

/// A compiled validator together with the schema document it was
/// compiled from; immutable, shared across any number of validation
/// calls.
pub struct CompiledSchema {
    validator: ValidatorHandle,
    schema: JsonValue,
}

impl CompiledSchema {
    /// The schema document this validator was compiled from.
    pub closed spec fn schema_model(&self) -> crate::json::Json {
        self.schema@
    }

    /// Compiles `schema_json`, taking the draft from the schema itself.
    pub fn new(schema_json: &str) -> (r: Result<CompiledSchema, JsonSchemaError>)
        ensures
            r is Ok ==> parsed_json(schema_json@) is Some && r->Ok_0.schema_model() == parsed_json(
                schema_json@,
            )->Some_0,
            r is Err ==> (r->Err_0 is JsonParseError <==> parsed_json(schema_json@) is None),
            r is Err ==> !(r->Err_0 is ValidationError),
    {
        Self::new_with_draft(schema_json, DraftVersion::Auto)
    }

    /// Compiles `schema_json` under the given draft; `Auto` lets the
    /// engine choose.
    pub fn new_with_draft(schema_json: &str, draft: DraftVersion) -> (r: Result<
        CompiledSchema,
        JsonSchemaError,
    >)
        ensures
            r is Ok ==> parsed_json(schema_json@) is Some && r->Ok_0.schema_model() == parsed_json(
                schema_json@,
            )->Some_0,
            r is Err ==> (r->Err_0 is JsonParseError <==> parsed_json(schema_json@) is None),
            r is Err ==> !(r->Err_0 is ValidationError),
    {
        let parsed = match parse_json(schema_json) {
            Ok(p) => p,
            Err(e) => {
                return Err(JsonSchemaError::JsonParseError(e));
            },
        };
        let compiled = match draft {
            DraftVersion::Auto => compile_auto(&parsed.raw),
            DraftVersion::Draft4 => compile_draft4(&parsed.raw),
            DraftVersion::Draft6 => compile_draft6(&parsed.raw),
            DraftVersion::Draft7 => compile_draft7(&parsed.raw),
            DraftVersion::Draft201909 => compile_draft201909(&parsed.raw),
            DraftVersion::Draft202012 => compile_draft202012(&parsed.raw),
        };
        match compiled {
            Ok(validator) => Ok(CompiledSchema { validator, schema: parsed.model }),
            Err(message) => Err(JsonSchemaError::CompilationError(message)),
        }
    }

    /// The engine's structural verdict on a parsed instance.
    pub fn is_valid(&self, instance: &ParsedJson) -> bool {
        validator_is_valid(&self.validator, &instance.raw)
    }

    /// The engine's verdict with the raw failures on rejection.
    pub fn validate(&self, instance: &ParsedJson) -> (r: Result<(), JsonSchemaError>)
        ensures
            r is Err ==> r->Err_0 is ValidationError,
    {
        if self.is_valid(instance) {
            Ok(())
        } else {
            Err(JsonSchemaError::ValidationError(validator_errors(&self.validator, &instance.raw)))
        }
    }

    /// The engine's verdict with, on rejection, one fully enriched
    /// record per raw failure: whatever failures the engine reported,
    /// every record is exactly the enrichment of the raw failure it
    /// echoes, against this schema and the given instance.
    pub fn validate_verbose(&self, instance: &ParsedJson) -> (r: Result<
        (),
        Vec<VerboseValidationErrorDetail>,
    >)
        ensures
            r matches Err(list) ==> forall|i: int|
                0 <= i < list@.len() ==> list@[i]@ == spec_enrich(
                    self.schema_model(),
                    instance.model_view(),
                    raw_of(list@[i]@),
                ),
    {
        if self.is_valid(instance) {
            Ok(())
        } else {
            let raw = validator_errors(&self.validator, &instance.raw);
            let enriched = enrich_failures(&self.schema, &instance.model, &raw);
            Err(enriched)
        }
    }
}


/// Parses instance text and validates it: a parse error is reported as
/// such, a rejection carries the raw failures.
pub fn validate(compiled: &CompiledSchema, instance_json: &str) -> (r: Result<
    (),
    JsonSchemaError,
>)
    ensures
        parsed_json(instance_json@) is None <==> (r is Err && r->Err_0 is JsonParseError),
        r is Err ==> (r->Err_0 is JsonParseError || r->Err_0 is ValidationError),
{
    match parse_json(instance_json) {
        Ok(p) => compiled.validate(&p),
        Err(e) => Err(JsonSchemaError::JsonParseError(e)),
    }
}

/// Parses instance text and validates it, enriching every failure the
/// engine reports.
pub fn validate_verbose(compiled: &CompiledSchema, instance_json: &str) -> (r: Result<
    (),
    VerboseError,
>)
    ensures
        parsed_json(instance_json@) is None <==> (r is Err && r->Err_0 is JsonParseError),
        r matches Err(VerboseError::Failures(list)) ==> parsed_json(instance_json@) is Some,
        r matches Err(VerboseError::Failures(list)) ==> forall|i: int|
            0 <= i < list@.len() ==> list@[i]@ == spec_enrich(
                compiled.schema_model(),
                parsed_json(instance_json@)->Some_0,
                raw_of(list@[i]@),
            ),
{
    match parse_json(instance_json) {
        Ok(p) => match compiled.validate_verbose(&p) {
            Ok(u) => Ok(u),
            Err(list) => Err(VerboseError::Failures(list)),
        },
        Err(e) => Err(VerboseError::JsonParseError(e)),
    }
}

/// The bare boolean verdict, reading unparsable instance text as a
/// JSON null rather than reporting a parse error (a documented quirk
/// of this entry point).
pub fn valid(compiled: &CompiledSchema, instance_json: &str) -> bool {
    let doc = match parse_json(instance_json) {
        Ok(p) => p,
        Err(_) => null_document(),
    };
    compiled.is_valid(&doc)
}

/// Detects the declared draft of schema text.
pub fn detect_draft_from_schema(schema_json: &str) -> (r: Result<DraftVersion, ParseFailure>)
    ensures
        r is Ok <==> parsed_json(schema_json@) is Some,
        r is Ok ==> r->Ok_0 == crate::draft::spec_detect_draft(parsed_json(schema_json@)->Some_0),
{
    match parse_json(schema_json) {
        Ok(p) => Ok(crate::draft::detect_draft(&p.model)),
        Err(e) => Err(e),
    }
}

} // verus!
