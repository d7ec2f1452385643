//! Mapping descriptors and document identity metadata for search-engine
//! document types, derived from a plain description of a record type.

pub mod json;
pub mod mapping;
pub mod field;
pub mod document;
pub mod derive;
pub mod response;
