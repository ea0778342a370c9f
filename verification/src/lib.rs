//! # Flodata — Fluent OData
//!
//! A composable OData v4 query builder. Filters build an expression tree
//! that is serialised at the end; the serialisers (`to_odata_string`,
//! `to_filter_string`, `to_expand_string`, `to_query_string`, `to_url`) are
//! proved to produce exactly the text their specifications describe.

pub mod builder;
pub mod expand;
pub mod field;
pub mod filter;
pub mod laws;
pub mod text;
pub mod value;

// Re-export the main entry point at crate root.
pub use builder::ODataQuery;
