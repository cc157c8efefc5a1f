//! Constants of the extension and the DuckDB C API type codes it uses.

use vstd::prelude::*;

verus! {

/// Number of rows in a standard DuckDB vector.
pub const STANDARD_VECTOR_SIZE: usize = 1024;

/// Name of the table function, NUL-terminated for the C API.
pub const FUNCTION_NAME: &'static str = "read_delta\0";

/// The state code with which a DuckDB C API call reports success.
pub const DUCKDB_SUCCESS: u32 = 0;

/// Column types that the C API wrapper creates.
#[derive(Debug, Clone, Copy, PartialEq, Eq)]
pub enum DuckDBType {
    /// BIGINT
    Bigint,
    /// VARCHAR
    Varchar,
}

/// The C API code of a column type.
pub open spec fn spec_type_code(t: DuckDBType) -> u32 {
    match t {
        DuckDBType::Bigint => 5,
        DuckDBType::Varchar => 17,
    }
}

impl DuckDBType {
    /// The code that the C API's `duckdb_create_logical_type` takes for
    /// this type: 5 for BIGINT, 17 for VARCHAR.
    pub fn code(&self) -> (r: u32)
        ensures
            r == spec_type_code(*self),
    {
        match self {
            DuckDBType::Bigint => 5,
            DuckDBType::Varchar => 17,
        }
    }
}

/// Whether a C API call succeeded, by its state code. The C API wrapper
/// stops on any other state.
pub fn state_is_success(state: u32) -> (r: bool)
    ensures
        r == (state == DUCKDB_SUCCESS),
{
    state == DUCKDB_SUCCESS
}

} // verus!
