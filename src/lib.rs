//! Elasticsearch type mappings.
//!
//! A document schema is an ordered list of named fields, each of which is a
//! leaf of some semantic type (with optional configuration knobs) or a nested
//! schema. The library renders such a schema as the JSON mapping document that
//! Elasticsearch expects, and states the exact text it produces.
pub mod text;
pub mod values;
pub mod mapping;
pub mod ip;
pub mod api;
