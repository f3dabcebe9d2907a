//! Typed model of JSON-NLP documents and its verified mapping to and from JSON.
//!
//! `json` holds the JSON tree and the boundary to JSON text; `record` the
//! field tables, with reading that fills in absent fields and writing that
//! leaves out empty strings; `features` and `model` the document model;
//! `codec` the entry points and the laws that tie reading and writing together.

pub mod json;
pub mod record;
pub mod codec;
pub mod features;
pub mod model;
