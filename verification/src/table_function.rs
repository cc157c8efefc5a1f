//! The `read_delta` table function: its parameters, its bind and init
//! steps, and the scan that fills an output chunk from the table's rows.

use vstd::prelude::*;
use crate::types::{
    is_mappable, map_type, spec_map_type, type_is_mappable, DuckLogicalType, LogicalTypeId,
    StructField,
};

verus! {

/// Bind data of the table function: the location of the table.
pub struct MyBindDataStruct {
    pub filename: String,
}

/// Init data of the table function: whether the scan is over, the index
/// of the file it entered last, and how many rows it has emitted.
#[derive(Debug, Clone, Copy, PartialEq, Eq)]
pub struct MyInitDataStruct {
    pub done: bool,
    pub file_idx: usize,
    pub spent: usize,
}

/// The table function `read_delta(location)`.
pub struct DeltaFunction {}

impl DeltaFunction {
    /// The positional parameters: one VARCHAR, the table's location.
    pub fn parameters() -> (r: Option<Vec<LogicalTypeId>>)
        ensures
            r is Some,
            r->0@ == seq![LogicalTypeId::Varchar],
    {
        let mut v: Vec<LogicalTypeId> = Vec::new();
        v.push(LogicalTypeId::Varchar);
        assert(v@ =~= seq![LogicalTypeId::Varchar]);
        Some(v)
    }

    /// Initialises the init data: the scan is marked done, at file 0, with
    /// no rows emitted.
    pub fn init(data: &mut MyInitDataStruct)
        ensures
            *final(data) == (MyInitDataStruct { done: true, file_idx: 0, spent: 0 }),
    {
        data.done = true;
        data.file_idx = 0;
        data.spent = 0;
    }
}

/// A result column declared at bind time.
#[derive(Debug, PartialEq, Eq)]
pub struct ResultColumn {
    pub name: String,
    pub logical_type: DuckLogicalType,
}

/// Whether the bind step accepts the number of parameters it was given.
pub fn parameter_count_is_valid(count: u64) -> (r: bool)
    ensures
        r == (count == 1),
{
    count == 1
}

/// The result columns for the fields of a table's schema: one per field,
/// with its name and the DuckDB type of its Delta type.
pub fn bind_columns(fields: &Vec<StructField>) -> (r: Vec<ResultColumn>)
    requires
        forall|i: int| 0 <= i < fields@.len() ==> is_mappable(#[trigger] fields@[i].data_type),
    ensures
        r@.len() == fields@.len(),
        forall|i: int|
            0 <= i < fields@.len() ==> {
                &&& (#[trigger] r@[i]).name@ == fields@[i].name@
                &&& r@[i].logical_type == spec_map_type(fields@[i].data_type)
            },
{
    let mut out: Vec<ResultColumn> = Vec::new();
    let mut i: usize = 0;
    while i < fields.len()
        invariant
            i <= fields@.len(),
            out@.len() == i,
            forall|j: int| 0 <= j < fields@.len() ==> is_mappable(#[trigger] fields@[j].data_type),
            forall|j: int|
                0 <= j < i ==> {
                    &&& (#[trigger] out@[j]).name@ == fields@[j].name@
                    &&& out@[j].logical_type == spec_map_type(fields@[j].data_type)
                },
        decreases fields@.len() - i,
    {
        let field = &fields[i];
        let typ = map_type(&field.data_type);
        out.push(ResultColumn { name: field.name.clone(), logical_type: typ });
        i = i + 1;
    }
    out
}

/// Index of the first field whose type has no DuckDB counterpart, if any.
pub fn first_unmappable_field(fields: &Vec<StructField>) -> (r: Option<usize>)
    ensures
        match r {
            None => forall|i: int| 0 <= i < fields@.len() ==> is_mappable(#[trigger] fields@[i].data_type),
            Some(k) => k < fields@.len() && !is_mappable(fields@[k as int].data_type) && forall|i: int|
                0 <= i < k ==> is_mappable(#[trigger] fields@[i].data_type),
        },
{
    let mut i: usize = 0;
    while i < fields.len()
        invariant
            i <= fields@.len(),
            forall|j: int| 0 <= j < i ==> is_mappable(#[trigger] fields@[j].data_type),
        decreases fields@.len() - i,
    {
        if !type_is_mappable(&fields[i].data_type) {
            return Some(i);
        }
        i = i + 1;
    }
    None
}


/// What opening the table at bind time gave.
pub enum TableLookup {
    /// Opening failed, with this message.
    OpenFailed(String),
    /// The table opened; its schema's fields, if it has a schema.
    Opened(Option<Vec<StructField>>),
}

/// What the bind step does.
pub enum BindOutcome {
    /// Report this error to DuckDB.
    Error(String),
    /// Declare these result columns and keep this bind data.
    Bound(Vec<ResultColumn>, MyBindDataStruct),
}

/// Whether the bind step accepts a table lookup for a location: a table
/// that opened must have a schema whose types all map, and then the
/// location must not hold a NUL character (it is kept as a C string).
pub open spec fn bind_accepts(filename: Seq<char>, lookup: TableLookup) -> bool {
    match lookup {
        TableLookup::OpenFailed(_) => true,
        TableLookup::Opened(None) => false,
        TableLookup::Opened(Some(fields)) => {
            &&& forall|i: int| 0 <= i < fields@.len() ==> is_mappable(#[trigger] fields@[i].data_type)
            &&& !filename.contains('\0')
        },
    }
}

/// Why the bind step would stop.
#[derive(Debug, Clone, Copy, PartialEq, Eq)]
pub enum BindProblem {
    /// The table has no schema.
    NoSchema,
    /// The field at this index has a type without a DuckDB counterpart.
    UnmappableField(usize),
    /// The location holds a NUL character.
    NulInFilename,
}

/// Whether a string holds a NUL character.
pub fn has_nul_char(s: &str) -> (r: bool)
    ensures
        r == s@.contains('\0'),
{
    let n = s.unicode_len();
    let mut i: usize = 0;
    while i < n
        invariant
            n as nat == s@.len(),
            i <= n,
            forall|j: int| 0 <= j < i ==> s@[j] != '\0',
        decreases n - i,
    {
        if s.get_char(i) == '\0' {
            return true;
        }
        i = i + 1;
    }
    false
}

/// Finds what would stop the bind step, if anything: `None` exactly when
/// `bind_accepts` holds.
pub fn bind_problem(filename: &str, lookup: &TableLookup) -> (r: Option<BindProblem>)
    ensures
        r is None <==> bind_accepts(filename@, *lookup),
        r == Some(BindProblem::NoSchema) <==> *lookup == TableLookup::Opened(None),
        r == Some(BindProblem::NulInFilename) ==> filename@.contains('\0') && match *lookup {
            TableLookup::Opened(Some(fields)) => forall|i: int|
                0 <= i < fields@.len() ==> is_mappable(#[trigger] fields@[i].data_type),
            _ => false,
        },
        r matches Some(BindProblem::UnmappableField(k)) ==> match *lookup {
            TableLookup::Opened(Some(fields)) => {
                &&& k < fields@.len()
                &&& !is_mappable(fields@[k as int].data_type)
                &&& forall|i: int| 0 <= i < k ==> is_mappable(#[trigger] fields@[i].data_type)
            },
            _ => false,
        },
{
    match lookup {
        TableLookup::OpenFailed(_) => None,
        TableLookup::Opened(None) => Some(BindProblem::NoSchema),
        TableLookup::Opened(Some(fields)) => match first_unmappable_field(fields) {
            Some(k) => Some(BindProblem::UnmappableField(k)),
            None => if has_nul_char(filename) {
                Some(BindProblem::NulInFilename)
            } else {
                None
            },
        },
    }
}

/// The bind step, given the table function's location parameter and what
/// opening the table there gave: an open error is reported with its
/// message; otherwise each schema field becomes a result column of its
/// mapped type, and the location is kept as bind data.
pub fn read_delta_bind(filename: String, lookup: TableLookup) -> (r: BindOutcome)
    requires
        bind_accepts(filename@, lookup),
    ensures
        match lookup {
            TableLookup::OpenFailed(msg) => r matches BindOutcome::Error(e) && e@ == msg@,
            TableLookup::Opened(Some(fields)) => match r {
                BindOutcome::Bound(columns, data) => {
                    &&& data.filename@ == filename@
                    &&& columns@.len() == fields@.len()
                    &&& forall|i: int|
                        0 <= i < fields@.len() ==> {
                            &&& (#[trigger] columns@[i]).name@ == fields@[i].name@
                            &&& columns@[i].logical_type == spec_map_type(fields@[i].data_type)
                        }
                },
                _ => false,
            },
            TableLookup::Opened(None) => false,
        },
{
    match lookup {
        TableLookup::OpenFailed(msg) => BindOutcome::Error(msg),
        TableLookup::Opened(Some(fields)) => {
            let columns = bind_columns(&fields);
            BindOutcome::Bound(columns, MyBindDataStruct { filename })
        },
        TableLookup::Opened(None) => vstd::pervasive::unreached(),
    }
}


/// A value of a Parquet row, as the scan sees it. Floating point values
/// are held by their IEEE 754 bit patterns.
#[derive(Debug, PartialEq, Eq)]
pub enum ParquetField {
    Null,
    Bool(bool),
    Byte(i8),
    Short(i16),
    Int(i32),
    Long(i64),
    UByte(u8),
    UShort(u16),
    UInt(u32),
    ULong(u64),
    Float16,
    Float(u32),
    Double(u64),
    Decimal,
    Str(String),
    Bytes(Vec<u8>),
    /// Days since the Unix epoch.
    Date(i32),
    /// Milliseconds since the Unix epoch.
    TimestampMillis(i64),
    /// Microseconds since the Unix epoch.
    TimestampMicros(i64),
    Group,
    ListInternal,
    MapInternal,
}

/// What the scan stores in one cell of the output chunk: a fixed-width
/// value (floating point ones by their bit patterns), or the bytes of a
/// VARCHAR.
#[derive(Debug, PartialEq, Eq)]
pub enum CellValue {
    Bool(bool),
    I8(i8),
    I16(i16),
    I32(i32),
    I64(i64),
    U8(u8),
    U16(u16),
    U32(u32),
    U64(u64),
    F32(u32),
    F64(u64),
    Varchar(Vec<u8>),
}

/// A write of one value into the output chunk.
#[derive(Debug, PartialEq, Eq)]
pub struct CellWrite {
    pub row: usize,
    pub column: usize,
    pub value: CellValue,
}

/// Whether the scan stores a value of this kind at all.
pub open spec fn field_is_supported(f: ParquetField) -> bool {
    !(f is Null || f is Float16 || f is Decimal || f is Group || f is ListInternal
        || f is MapInternal)
}

/// The bytes of a string or binary value.
pub open spec fn field_text(f: ParquetField) -> Option<Seq<u8>> {
    match f {
        ParquetField::Str(s) => Some(vstd::utf8::encode_utf8(s@)),
        ParquetField::Bytes(b) => Some(b@),
        _ => None,
    }
}

/// Whether the scan can store `f` in a column: it must be supported, and
/// string and binary values must hold no NUL byte and go to a VARCHAR
/// column.
pub open spec fn cell_accepts(f: ParquetField, column_is_varchar: bool) -> bool {
    &&& field_is_supported(f)
    &&& field_text(f) matches Some(t) ==> !t.contains(0u8) && column_is_varchar
}

/// `c` is what the scan stores for `f`: the same number in a slot of the
/// same width (dates as 32 bit integers, timestamps as 64 bit ones), and
/// the bytes of strings and binary values as VARCHARs.
pub open spec fn cell_value_of(f: ParquetField, c: CellValue) -> bool {
    match f {
        ParquetField::Bool(v) => c == CellValue::Bool(v),
        ParquetField::Byte(v) => c == CellValue::I8(v),
        ParquetField::Short(v) => c == CellValue::I16(v),
        ParquetField::Int(v) => c == CellValue::I32(v),
        ParquetField::Long(v) => c == CellValue::I64(v),
        ParquetField::UByte(v) => c == CellValue::U8(v),
        ParquetField::UShort(v) => c == CellValue::U16(v),
        ParquetField::UInt(v) => c == CellValue::U32(v),
        ParquetField::ULong(v) => c == CellValue::U64(v),
        ParquetField::Float(v) => c == CellValue::F32(v),
        ParquetField::Double(v) => c == CellValue::F64(v),
        ParquetField::Date(v) => c == CellValue::I32(v),
        ParquetField::TimestampMillis(v) => c == CellValue::I64(v),
        ParquetField::TimestampMicros(v) => c == CellValue::I64(v),
        ParquetField::Str(s) => c matches CellValue::Varchar(b) && b@ == vstd::utf8::encode_utf8(s@),
        ParquetField::Bytes(v) => c matches CellValue::Varchar(b) && b@ == v@,
        _ => false,
    }
}

/// Why the scan would stop at a value.
#[derive(Debug, Clone, Copy, PartialEq, Eq)]
pub enum CellProblem {
    /// The scan does not store values of this kind.
    Unsupported,
    /// A string or binary value holds a NUL byte.
    NulByte,
    /// A string or binary value is meant for a column that is not VARCHAR.
    NotVarchar,
}

/// Whether a byte string holds a NUL byte.
pub fn has_nul_byte(bytes: &[u8]) -> (r: bool)
    ensures
        r == bytes@.contains(0u8),
{
    let mut i: usize = 0;
    while i < bytes.len()
        invariant
            i <= bytes@.len(),
            forall|j: int| 0 <= j < i ==> bytes@[j] != 0u8,
        decreases bytes@.len() - i,
    {
        if bytes[i] == 0 {
            assert(bytes@[i as int] == 0u8);
            return true;
        }
        i = i + 1;
    }
    false
}

/// Finds what would stop the scan at `value`, if anything: `None` exactly
/// when `cell_accepts` holds.
pub fn cell_problem(value: &ParquetField, column_is_varchar: bool) -> (r: Option<CellProblem>)
    ensures
        r is None <==> cell_accepts(*value, column_is_varchar),
        r == Some(CellProblem::Unsupported) <==> !field_is_supported(*value),
        r == Some(CellProblem::NulByte) ==> (field_text(*value) matches Some(t) && t.contains(0u8)),
        r == Some(CellProblem::NotVarchar) ==> (field_text(*value) matches Some(t) && !t.contains(
            0u8,
        ) && !column_is_varchar),
{
    match value {
        ParquetField::Str(s) => if has_nul_byte(s.as_str().as_bytes()) {
            Some(CellProblem::NulByte)
        } else if !column_is_varchar {
            Some(CellProblem::NotVarchar)
        } else {
            None
        },
        ParquetField::Bytes(b) => if has_nul_byte(b.as_slice()) {
            Some(CellProblem::NulByte)
        } else if !column_is_varchar {
            Some(CellProblem::NotVarchar)
        } else {
            None
        },
        ParquetField::Null => Some(CellProblem::Unsupported),
        ParquetField::Float16 => Some(CellProblem::Unsupported),
        ParquetField::Decimal => Some(CellProblem::Unsupported),
        ParquetField::Group => Some(CellProblem::Unsupported),
        ParquetField::ListInternal => Some(CellProblem::Unsupported),
        ParquetField::MapInternal => Some(CellProblem::Unsupported),
        _ => None,
    }
}

fn copy_bytes(bytes: &[u8]) -> (r: Vec<u8>)
    ensures
        r@ == bytes@,
{
    let mut out: Vec<u8> = Vec::new();
    let mut i: usize = 0;
    while i < bytes.len()
        invariant
            i <= bytes@.len(),
            out@ == bytes@.subrange(0, i as int),
        decreases bytes@.len() - i,
    {
        out.push(bytes[i]);
        i = i + 1;
        assert(out@ =~= bytes@.subrange(0, i as int));
    }
    assert(out@ =~= bytes@);
    out
}

/// The write that stores `value` at row `row_idx` of column `col_idx`.
pub fn populate_column(value: &ParquetField, column_is_varchar: bool, row_idx: usize, col_idx: usize) -> (r: CellWrite)
    requires
        cell_accepts(*value, column_is_varchar),
    ensures
        r.row == row_idx,
        r.column == col_idx,
        cell_value_of(*value, r.value),
{
    let v = match value {
        ParquetField::Bool(v) => CellValue::Bool(*v),
        ParquetField::Byte(v) => CellValue::I8(*v),
        ParquetField::Short(v) => CellValue::I16(*v),
        ParquetField::Int(v) => CellValue::I32(*v),
        ParquetField::Long(v) => CellValue::I64(*v),
        ParquetField::UByte(v) => CellValue::U8(*v),
        ParquetField::UShort(v) => CellValue::U16(*v),
        ParquetField::UInt(v) => CellValue::U32(*v),
        ParquetField::ULong(v) => CellValue::U64(*v),
        ParquetField::Float(v) => CellValue::F32(*v),
        ParquetField::Double(v) => CellValue::F64(*v),
        ParquetField::Date(v) => CellValue::I32(*v),
        ParquetField::TimestampMillis(v) => CellValue::I64(*v),
        ParquetField::TimestampMicros(v) => CellValue::I64(*v),
        ParquetField::Str(s) => CellValue::Varchar(copy_bytes(s.as_str().as_bytes())),
        ParquetField::Bytes(b) => CellValue::Varchar(copy_bytes(b.as_slice())),
        _ => vstd::pervasive::unreached(),
    };
    CellWrite { row: row_idx, column: col_idx, value: v }
}


/// State of one call of the table function while it fills an output
/// chunk: the init data, the rows written so far, and whether a file is
/// being read.
#[derive(Debug, Clone, Copy, PartialEq, Eq)]
pub struct ChunkScan {
    pub init: MyInitDataStruct,
    pub rows: usize,
    pub reading: bool,
}

impl ChunkScan {
    /// A scan whose init data says it is done reads no file and writes no
    /// row.
    pub open spec fn wf(self) -> bool {
        self.init.done ==> self.rows == 0 && !self.reading
    }

    /// Starts filling a chunk from the init data.
    pub fn start(init: MyInitDataStruct) -> (r: ChunkScan)
        ensures
            r == (ChunkScan { init, rows: 0, reading: false }),
            r.wf(),
    {
        ChunkScan { init, rows: 0, reading: false }
    }

    /// Enters the file with index `file_idx`: records the index in the init
    /// data and tells whether to read the file, which is so unless the
    /// scan is done.
    pub fn enter_file(&mut self, file_idx: usize) -> (proceed: bool)
        requires
            old(self).wf(),
        ensures
            proceed == !old(self).init.done,
            final(self).init == (MyInitDataStruct { file_idx, ..old(self).init }),
            final(self).rows == old(self).rows,
            final(self).reading == (old(self).reading || proceed),
            final(self).wf(),
    {
        self.init.file_idx = file_idx;
        if self.init.done {
            false
        } else {
            self.reading = true;
            true
        }
    }

    /// Whether the chunk can take one more row: the row count after it must
    /// stay below the vector size.
    pub fn row_fits(&self, vector_size: usize) -> (r: bool)
        ensures
            r == (self.rows + 1 < vector_size),
    {
        self.rows < vector_size && vector_size - self.rows > 1
    }

    /// Records that row `rows` of the chunk has been written.
    pub fn row_written(&mut self, vector_size: usize)
        requires
            old(self).wf(),
            old(self).reading,
            old(self).rows + 1 < vector_size,
        ensures
            final(self).rows == old(self).rows + 1,
            final(self).init == old(self).init,
            final(self).reading == old(self).reading,
            final(self).wf(),
    {
        self.rows = self.rows + 1;
    }

    /// Ends the chunk: gives the init data, with the rows of this chunk
    /// added to those emitted, and the chunk's length.
    pub fn finish(self) -> (r: (MyInitDataStruct, usize))
        requires
            self.wf(),
            self.init.spent + self.rows <= usize::MAX,
        ensures
            r.1 == self.rows,
            r.0 == (MyInitDataStruct { spent: (self.init.spent + self.rows) as usize, ..self.init }),
            self.init.done ==> r.1 == 0 && r.0 == self.init,
    {
        let mut init = self.init;
        init.spent = init.spent + self.rows;
        (init, self.rows)
    }
}

/// Law of the scan: a chunk scan that starts from init data set up by
/// `DeltaFunction::init` is done, so whatever files the table has, it
/// reads none of them and finishes with an empty chunk and its init data
/// as it was, apart from the index of the file it entered.
pub proof fn lemma_initialised_scan_is_empty(s: ChunkScan)
    requires
        s.wf(),
        s.init.done,
    ensures
        s.rows == 0,
        !s.reading,
{
}


/// Law of the stored cell: the scan stores every value unchanged. A fixed
/// width value goes to a slot of the same width and signedness holding
/// the same number (dates as 32 bit and timestamps as 64 bit integers,
/// floating point numbers by the same bit pattern); strings and binary
/// values go to VARCHAR as their bytes.
pub proof fn lemma_cell_keeps_value(f: ParquetField, c: CellValue)
    requires
        cell_value_of(f, c),
    ensures
        f matches ParquetField::Bool(v) ==> (c matches CellValue::Bool(x) && x == v),
        f matches ParquetField::Byte(v) ==> (c matches CellValue::I8(x) && x as int == v as int),
        f matches ParquetField::Short(v) ==> (c matches CellValue::I16(x) && x as int == v as int),
        f matches ParquetField::Int(v) ==> (c matches CellValue::I32(x) && x as int == v as int),
        f matches ParquetField::Long(v) ==> (c matches CellValue::I64(x) && x as int == v as int),
        f matches ParquetField::UByte(v) ==> (c matches CellValue::U8(x) && x as int == v as int),
        f matches ParquetField::UShort(v) ==> (c matches CellValue::U16(x) && x as int == v as int),
        f matches ParquetField::UInt(v) ==> (c matches CellValue::U32(x) && x as int == v as int),
        f matches ParquetField::ULong(v) ==> (c matches CellValue::U64(x) && x as int == v as int),
        f matches ParquetField::Float(v) ==> (c matches CellValue::F32(x) && x as int == v as int),
        f matches ParquetField::Double(v) ==> (c matches CellValue::F64(x) && x as int == v as int),
        f matches ParquetField::Date(v) ==> (c matches CellValue::I32(x) && x as int == v as int),
        f matches ParquetField::TimestampMillis(v) ==> (c matches CellValue::I64(x) && x as int
            == v as int),
        f matches ParquetField::TimestampMicros(v) ==> (c matches CellValue::I64(x) && x as int
            == v as int),
        f matches ParquetField::Str(s) ==> (c matches CellValue::Varchar(b) && b@
            == vstd::utf8::encode_utf8(s@)),
        f matches ParquetField::Bytes(v) ==> (c matches CellValue::Varchar(b) && b@ == v@),
{
}

} // verus!
