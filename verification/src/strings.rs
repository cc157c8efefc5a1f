//! Where the bytes of a DuckDB string value lie.
//!
//! A DuckDB vector of strings is an array of 16 byte records. A record
//! starts with the string's length as a 32 bit integer. A string of at most
//! 12 bytes is stored in the record itself, from byte 4; a longer one lies
//! elsewhere, and the record holds a pointer to it at byte 8.

use vstd::prelude::*;

verus! {

/// Size in bytes of a string record.
pub const STRING_RECORD_SIZE: usize = 16;

/// Longest string stored inside its record.
pub const STRING_INLINE_LENGTH: i32 = 12;

/// Where a string's bytes lie, relative to the start of its record.
#[derive(Debug, Clone, Copy, PartialEq, Eq)]
pub enum StringPayload {
    /// `len` bytes inside the record, from `offset`.
    Inline { offset: usize, len: usize },
    /// `len` bytes at the address stored in the record at `pointer_offset`.
    Indirect { pointer_offset: usize, len: usize },
}

/// Offset in the vector's data of the record of the `idx`-th string,
/// counting from 1.
pub fn string_record_offset(idx: usize) -> (r: usize)
    requires
        idx >= 1,
        (idx - 1) * STRING_RECORD_SIZE <= usize::MAX,
    ensures
        r == (idx - 1) * STRING_RECORD_SIZE,
{
    (idx - 1) * STRING_RECORD_SIZE
}

/// Where the bytes of a string of the given length lie.
pub fn string_payload(length: i32) -> (r: StringPayload)
    requires
        length >= 0,
    ensures
        length <= STRING_INLINE_LENGTH ==> r == (StringPayload::Inline {
            offset: 4,
            len: length as usize,
        }),
        length > STRING_INLINE_LENGTH ==> r == (StringPayload::Indirect {
            pointer_offset: 8,
            len: length as usize,
        }),
{
    if length <= STRING_INLINE_LENGTH {
        StringPayload::Inline { offset: 4, len: length as usize }
    } else {
        StringPayload::Indirect { pointer_offset: 8, len: length as usize }
    }
}

} // verus!
