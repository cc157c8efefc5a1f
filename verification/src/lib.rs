//! Verified core of a DuckDB extension that reads Delta tables.

pub mod constants;
pub mod populate;
pub mod scalar;
pub mod simple_populate;
pub mod strings;
pub mod table_function;
pub mod text;
pub mod types;
