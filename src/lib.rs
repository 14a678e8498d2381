//! Validation of JSON documents against a JSON Schema: decoding of documents,
//! the per-instance report, and the decisions of a validation run.
pub mod cli;
pub mod json;
pub mod laws;
pub mod report;
pub mod run;
