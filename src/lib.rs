//! Wrapper generation for exporting native declarations to a foreign,
//! dynamically typed host: declarations are classified, checked against the
//! types that can cross a C-style boundary, and turned into wrapper source text.
pub mod text;
pub mod types;
pub mod decl;
pub mod roles;
pub mod validate;
pub mod emit;
pub mod function;
pub mod record;
pub mod collection;
pub mod host;
pub mod generate;
pub mod laws;
pub mod registry;
