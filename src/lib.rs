//! Decoding of schema.org `Recipe` metadata (JSON-LD) into normalized records.
//!
//! Every polymorphic field is resolved by trying its candidate shapes in a
//! fixed order; the contracts state that order over a mathematical model of
//! JSON values (`json::JsonTree`).
pub mod json;
pub mod fields;
pub mod recipe;
pub mod envelope;

pub use envelope::{Extract, Scrape, SchemaEntry as SchemaOrgEntry};
pub use recipe::Recipe as SchemaOrgRecipe;
