//! Enrichment engine for JSON Schema validation failures.
//!
//! Given raw structural failures (instance path, schema path, message)
//! produced by an external validation engine, this library reconstructs
//! the violated keyword, the offending instance and schema values, an
//! "expected vs actual" fact sheet, inherited schema annotations, and
//! remediation suggestions. The reconstruction — pointer resolution,
//! keyword classification, constraint extraction, context synthesis,
//! annotation inheritance, suggestion generation and draft detection —
//! is verified; the external parser and validation engine stand behind
//! trusted declarations.

pub mod annotations;
pub mod constraint;
pub mod context;
pub mod draft;
pub mod enrich;
pub mod failure;
pub mod json;
pub mod keyword;
pub mod pointer;
pub mod schema;
pub mod strutil;
pub mod suggest;

pub use draft::DraftVersion;
pub use failure::ValidationErrorDetail;
pub use failure::VerboseValidationErrorDetail;
pub use json::JsonValue;
pub use pointer::get_value_at_path;
pub use schema::CompiledSchema;
pub use schema::JsonSchemaError;
pub use schema::ParseFailure;
pub use schema::ParsedJson;
pub use schema::VerboseError;
pub use schema::detect_draft_from_schema;
pub use schema::parse_document;
pub use schema::valid;
pub use schema::validate;
pub use schema::validate_verbose;
