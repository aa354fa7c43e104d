//! Schema compiler: column type descriptors, composite types for enum-like
//! values, schema assembly, DDL rendering and schema comparison.
pub mod text;
pub mod db_types;
pub mod descriptor;
pub mod composite;
pub mod schema;
pub mod render;
pub mod diff;
pub mod models;
pub mod query;
pub mod outside;
