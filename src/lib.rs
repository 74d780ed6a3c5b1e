//! Query compiler and partition-aware catalog for a multi-tenant log store.
//!
//! The pipeline query language (PQL) is parsed into an AST with byte spans,
//! lowered against a tenant's table schema into a logical plan (or a list of
//! diagnostics), and scans are planned from the partition list that the
//! metadata service reports for a table.

pub mod common;
pub mod ast;
pub mod parser;
pub mod diagnostics;
pub mod meta;
pub mod plan;
pub mod lower;
pub mod config;
pub mod catalog;
pub mod ingest;
pub mod context;

pub use lower::{lower, QueryContext};
pub use parser::parse;
