//! Schema and data of the sample Delta table that the populate program
//! writes: its Arrow columns, their Delta schema, and the record batch.

use vstd::prelude::*;
use crate::text::{contains_text, text_contains, text_eq};
use crate::types::{is_mappable, PrimitiveType, SchemaDataType, StructField};
use deltalake::arrow::compute::kernels::cast_utils::Parser;
use deltalake::arrow::datatypes::Date32Type;

verus! {

/// An Arrow data type, as far as the populate program uses it.
#[derive(Debug, PartialEq, Eq)]
pub enum ArrowDataType {
    Null,
    Boolean,
    Int8,
    Int16,
    Int32,
    Int64,
    UInt8,
    UInt16,
    UInt32,
    UInt64,
    Float16,
    Float32,
    Float64,
    /// Days since the Unix epoch.
    Date32,
    /// Milliseconds since the Unix epoch.
    Date64,
    Binary,
    Utf8,
    LargeUtf8,
    /// A decimal of the given precision and scale.
    Decimal128(u8, i8),
    /// A list whose items have the given field.
    List(Box<ArrowField>),
    /// A list with 64 bit offsets whose items have the given field.
    LargeList(Box<ArrowField>),
    /// A struct of the given fields.
    Struct(Vec<ArrowField>),
    /// A map whose entries have the given field; the flag says whether the
    /// keys are sorted.
    MapOf(Box<ArrowField>, bool),
}

/// A named Arrow field.
#[derive(Debug, PartialEq, Eq)]
pub struct ArrowField {
    /// Field name.
    pub name: String,
    pub data_type: ArrowDataType,
    pub nullable: bool,
}

/// Whether `map_type` accepts an Arrow type: the primitive types it knows
/// (boolean, 32 and 64 bit integers, 32 bit dates, UTF-8 strings and
/// 128 bit decimals), and lists, maps and structs built from them.
pub open spec fn arrow_is_mappable(t: ArrowDataType) -> bool
    decreases t,
{
    match t {
        ArrowDataType::Boolean => true,
        ArrowDataType::Int64 => true,
        ArrowDataType::Int32 => true,
        ArrowDataType::Date32 => true,
        ArrowDataType::Utf8 => true,
        ArrowDataType::Decimal128(_, _) => true,
        ArrowDataType::List(e) => arrow_is_mappable(e.data_type),
        ArrowDataType::MapOf(e, _) => arrow_is_mappable(e.data_type),
        ArrowDataType::Struct(fs) => forall|i: int|
            0 <= i < fs@.len() ==> arrow_is_mappable(#[trigger] fs@[i].data_type),
        _ => false,
    }
}

/// `d` is the Delta type that `map_type` gives for the Arrow type `a`.
pub open spec fn converts_to(a: ArrowDataType, d: SchemaDataType) -> bool
    decreases a,
{
    match a {
        ArrowDataType::Boolean => d == SchemaDataType::Primitive(PrimitiveType::Boolean),
        ArrowDataType::Int64 => d == SchemaDataType::Primitive(PrimitiveType::Long),
        ArrowDataType::Int32 => d == SchemaDataType::Primitive(PrimitiveType::Integer),
        ArrowDataType::Date32 => d == SchemaDataType::Primitive(PrimitiveType::Date),
        ArrowDataType::Utf8 => d == SchemaDataType::Primitive(PrimitiveType::String),
        ArrowDataType::Decimal128(p, s) => d == SchemaDataType::Primitive(
            PrimitiveType::Decimal(p, s),
        ),
        ArrowDataType::List(e) => match d {
            SchemaDataType::Array(de, contains_null) => contains_null == e.nullable
                && converts_to(e.data_type, *de),
            _ => false,
        },
        ArrowDataType::MapOf(e, _) => match d {
            SchemaDataType::MapOf(k, v, value_contains_null) => value_contains_null == e.nullable
                && converts_to(e.data_type, *k) && converts_to(e.data_type, *v),
            _ => false,
        },
        ArrowDataType::Struct(fs) => match d {
            SchemaDataType::Struct(ds) => ds@.len() == fs@.len() && forall|i: int|
                0 <= i < fs@.len() ==> {
                    &&& (#[trigger] ds@[i]).name@ == fs@[i].name@
                    &&& ds@[i].nullable == fs@[i].nullable
                    &&& converts_to(fs@[i].data_type, ds@[i].data_type)
                },
            _ => false,
        },
        _ => false,
    }
}

/// `g` is the Delta field that `create_schema_fields` gives for `f`.
pub open spec fn field_converts_to(f: ArrowField, g: StructField) -> bool {
    &&& g.name@ == f.name@
    &&& g.nullable == f.nullable
    &&& converts_to(f.data_type, g.data_type)
}

/// Tells whether `map_type` accepts `data_type`.
#[verifier::loop_isolation(false)]
pub fn arrow_type_is_mappable(data_type: &ArrowDataType) -> (r: bool)
    ensures
        r == arrow_is_mappable(*data_type),
    decreases data_type,
{
    match data_type {
        ArrowDataType::Boolean => true,
        ArrowDataType::Int64 => true,
        ArrowDataType::Int32 => true,
        ArrowDataType::Date32 => true,
        ArrowDataType::Utf8 => true,
        ArrowDataType::Decimal128(_, _) => true,
        ArrowDataType::List(e) => arrow_type_is_mappable(&e.data_type),
        ArrowDataType::MapOf(e, _) => arrow_type_is_mappable(&e.data_type),
        ArrowDataType::Struct(fs) => {
            let mut i: usize = 0;
            while i < fs.len()
                invariant
                    i <= fs@.len(),
                    forall|j: int| 0 <= j < i ==> arrow_is_mappable(#[trigger] fs@[j].data_type),
                decreases fs@.len() - i,
            {
                proof {
                    assert(decreases_to!(*data_type => fs@[i as int].data_type));
                }
                if !arrow_type_is_mappable(&fs[i].data_type) {
                    return false;
                }
                i = i + 1;
            }
            true
        },
        _ => false,
    }
}

/// Maps an Arrow type to the Delta type of a table column.
pub fn map_type(data_type: &ArrowDataType) -> (r: SchemaDataType)
    requires
        arrow_is_mappable(*data_type),
    ensures
        converts_to(*data_type, r),
    decreases data_type,
{
    match data_type {
        ArrowDataType::Boolean => SchemaDataType::Primitive(PrimitiveType::Boolean),
        ArrowDataType::Int64 => SchemaDataType::Primitive(PrimitiveType::Long),
        ArrowDataType::Int32 => SchemaDataType::Primitive(PrimitiveType::Integer),
        ArrowDataType::Date32 => SchemaDataType::Primitive(PrimitiveType::Date),
        ArrowDataType::Utf8 => SchemaDataType::Primitive(PrimitiveType::String),
        ArrowDataType::Decimal128(precision, scale) => SchemaDataType::Primitive(
            PrimitiveType::Decimal(*precision, *scale),
        ),
        ArrowDataType::Struct(fields) => {
            proof {
                assert(decreases_to!(*data_type => *fields));
            }
            SchemaDataType::Struct(create_schema_fields(fields))
        },
        ArrowDataType::MapOf(field_type, _sortable) => {
            let key_type = map_type(&field_type.data_type);
            let value_type = map_type(&field_type.data_type);
            SchemaDataType::MapOf(Box::new(key_type), Box::new(value_type), field_type.nullable)
        },
        ArrowDataType::List(element_type) => {
            let t = map_type(&element_type.data_type);
            SchemaDataType::Array(Box::new(t), element_type.nullable)
        },
        _ => vstd::pervasive::unreached(),
    }
}

/// Maps each Arrow field to a Delta field of the same name and nullability.
pub fn create_schema_fields(fields: &Vec<ArrowField>) -> (r: Vec<StructField>)
    requires
        forall|i: int| 0 <= i < fields@.len() ==> arrow_is_mappable(#[trigger] fields@[i].data_type),
    ensures
        r@.len() == fields@.len(),
        forall|i: int| 0 <= i < fields@.len() ==> field_converts_to(fields@[i], #[trigger] r@[i]),
    decreases fields,
{
    let mut out: Vec<StructField> = Vec::new();
    let mut i: usize = 0;
    while i < fields.len()
        invariant
            i <= fields@.len(),
            out@.len() == i,
            forall|j: int| 0 <= j < fields@.len() ==> arrow_is_mappable(#[trigger] fields@[j].data_type),
            forall|j: int| 0 <= j < i ==> field_converts_to(fields@[j], #[trigger] out@[j]),
        decreases fields@.len() - i,
    {
        let f = &fields[i];
        proof {
            assert(decreases_to!(*fields => fields@[i as int].data_type));
        }
        let t = map_type(&f.data_type);
        out.push(StructField { name: f.name.clone(), data_type: t, nullable: f.nullable });
        i = i + 1;
    }
    out
}


/// Options of the populate program.
pub struct Config {
    /// Location of the table to write.
    pub filename: String,
    /// Whether the table gets a list column.
    pub with_list: bool,
    /// Whether the table gets a struct column.
    pub with_struct: bool,
    /// Whether the table gets a decimal column.
    pub with_decimal: bool,
}

/// The columns that the populate program can give its table.
#[derive(Debug, Clone, Copy, PartialEq, Eq)]
pub enum SampleColumn {
    /// `x`: 64 bit integers.
    X,
    /// `other`: booleans.
    Other,
    /// `third`: strings.
    Third,
    /// `d`: dates.
    D,
    /// `structed`: a struct of a 64 bit integer `a` and a string `b`.
    Structed,
    /// `listed`: lists of 32 bit integers.
    Listed,
    /// `decimal`: decimals of precision 10 and scale 2.
    Decimal,
}

/// The schema's columns for a configuration, in order: the four fixed
/// columns, then the struct, list and decimal columns that it asks for.
pub open spec fn schema_plan(config: Config) -> Seq<SampleColumn> {
    seq![SampleColumn::X, SampleColumn::Other, SampleColumn::Third, SampleColumn::D]
        + (if config.with_struct { seq![SampleColumn::Structed] } else { Seq::empty() })
        + (if config.with_list { seq![SampleColumn::Listed] } else { Seq::empty() })
        + (if config.with_decimal { seq![SampleColumn::Decimal] } else { Seq::empty() })
}

/// `f` is a field named `name` of the plain type `t`.
pub open spec fn plain_field(f: ArrowField, name: Seq<char>, t: ArrowDataType, nullable: bool) -> bool {
    f.name@ == name && f.data_type == t && f.nullable == nullable
}

/// `t` is the type of the `structed` column.
pub open spec fn is_sample_struct_type(t: ArrowDataType) -> bool {
    match t {
        ArrowDataType::Struct(fs) => {
            &&& fs@.len() == 2
            &&& plain_field(fs@[0], "a"@, ArrowDataType::Int64, false)
            &&& plain_field(fs@[1], "b"@, ArrowDataType::Utf8, false)
        },
        _ => false,
    }
}

/// `t` is the type of the `listed` column.
pub open spec fn is_sample_list_type(t: ArrowDataType) -> bool {
    match t {
        ArrowDataType::List(e) => plain_field(*e, "item"@, ArrowDataType::Int32, true),
        _ => false,
    }
}

/// `f` is the schema field of column `c`.
pub open spec fn is_sample_field(f: ArrowField, c: SampleColumn) -> bool {
    match c {
        SampleColumn::X => plain_field(f, "x"@, ArrowDataType::Int64, false),
        SampleColumn::Other => plain_field(f, "other"@, ArrowDataType::Boolean, false),
        SampleColumn::Third => plain_field(f, "third"@, ArrowDataType::Utf8, false),
        SampleColumn::D => plain_field(f, "d"@, ArrowDataType::Date32, false),
        SampleColumn::Structed => f.name@ == "structed"@ && !f.nullable
            && is_sample_struct_type(f.data_type),
        SampleColumn::Listed => f.name@ == "listed"@ && f.nullable
            && is_sample_list_type(f.data_type),
        SampleColumn::Decimal => plain_field(f, "decimal"@, ArrowDataType::Decimal128(10, 2), false),
    }
}

/// `fields` are the schema fields of the columns `plan`, in order.
pub open spec fn fields_follow(fields: Seq<ArrowField>, plan: Seq<SampleColumn>) -> bool {
    fields.len() == plan.len() && forall|i: int|
        0 <= i < plan.len() ==> is_sample_field(#[trigger] fields[i], plan[i])
}

fn plain(name: &str, data_type: ArrowDataType, nullable: bool) -> (r: ArrowField)
    ensures
        r.name@ == name@,
        r.data_type == data_type,
        r.nullable == nullable,
{
    ArrowField { name: name.to_owned(), data_type, nullable }
}

/// The schema field of one column.
pub fn sample_field(c: SampleColumn) -> (r: ArrowField)
    ensures
        is_sample_field(r, c),
{
    match c {
        SampleColumn::X => plain("x", ArrowDataType::Int64, false),
        SampleColumn::Other => plain("other", ArrowDataType::Boolean, false),
        SampleColumn::Third => plain("third", ArrowDataType::Utf8, false),
        SampleColumn::D => plain("d", ArrowDataType::Date32, false),
        SampleColumn::Structed => {
            let mut fs: Vec<ArrowField> = Vec::new();
            fs.push(plain("a", ArrowDataType::Int64, false));
            fs.push(plain("b", ArrowDataType::Utf8, false));
            plain("structed", ArrowDataType::Struct(fs), false)
        },
        SampleColumn::Listed => {
            let item = plain("item", ArrowDataType::Int32, true);
            plain("listed", ArrowDataType::List(Box::new(item)), true)
        },
        SampleColumn::Decimal => plain("decimal", ArrowDataType::Decimal128(10, 2), false),
    }
}

/// The Arrow schema of the table for a configuration: `x`, `other`,
/// `third` and `d`, then `structed`, `listed` and `decimal` where the
/// configuration asks for them.
pub fn get_columns(config: &Config) -> (r: Vec<ArrowField>)
    ensures
        fields_follow(r@, schema_plan(*config)),
{
    let mut vector: Vec<ArrowField> = Vec::new();
    vector.push(sample_field(SampleColumn::X));
    vector.push(sample_field(SampleColumn::Other));
    vector.push(sample_field(SampleColumn::Third));
    vector.push(sample_field(SampleColumn::D));
    let ghost mut plan: Seq<SampleColumn> = seq![
        SampleColumn::X,
        SampleColumn::Other,
        SampleColumn::Third,
        SampleColumn::D,
    ];
    if config.with_struct {
        vector.push(sample_field(SampleColumn::Structed));
        proof { plan = plan.push(SampleColumn::Structed); }
    }
    if config.with_list {
        vector.push(sample_field(SampleColumn::Listed));
        proof { plan = plan.push(SampleColumn::Listed); }
    }
    if config.with_decimal {
        vector.push(sample_field(SampleColumn::Decimal));
        proof { plan = plan.push(SampleColumn::Decimal); }
    }
    assert(plan =~= schema_plan(*config));
    vector
}


/// `g` is the Delta field of column `c`.
pub open spec fn is_sample_delta_field(g: StructField, c: SampleColumn) -> bool {
    match c {
        SampleColumn::X => g.name@ == "x"@ && !g.nullable
            && g.data_type == SchemaDataType::Primitive(PrimitiveType::Long),
        SampleColumn::Other => g.name@ == "other"@ && !g.nullable
            && g.data_type == SchemaDataType::Primitive(PrimitiveType::Boolean),
        SampleColumn::Third => g.name@ == "third"@ && !g.nullable
            && g.data_type == SchemaDataType::Primitive(PrimitiveType::String),
        SampleColumn::D => g.name@ == "d"@ && !g.nullable
            && g.data_type == SchemaDataType::Primitive(PrimitiveType::Date),
        SampleColumn::Structed => g.name@ == "structed"@ && !g.nullable && match g.data_type {
            SchemaDataType::Struct(ds) => {
                &&& ds@.len() == 2
                &&& ds@[0].name@ == "a"@ && !ds@[0].nullable
                &&& ds@[0].data_type == SchemaDataType::Primitive(PrimitiveType::Long)
                &&& ds@[1].name@ == "b"@ && !ds@[1].nullable
                &&& ds@[1].data_type == SchemaDataType::Primitive(PrimitiveType::String)
            },
            _ => false,
        },
        SampleColumn::Listed => g.name@ == "listed"@ && g.nullable && g.data_type
            == SchemaDataType::Array(Box::new(SchemaDataType::Primitive(PrimitiveType::Integer)), true),
        SampleColumn::Decimal => g.name@ == "decimal"@ && !g.nullable
            && g.data_type == SchemaDataType::Primitive(PrimitiveType::Decimal(10, 2)),
    }
}

/// Every column that the populate program can give its table has a Delta
/// type, so building the table's Delta schema never fails.
pub proof fn lemma_sample_field_is_mappable(f: ArrowField, c: SampleColumn)
    requires
        is_sample_field(f, c),
    ensures
        arrow_is_mappable(f.data_type),
{
    reveal_with_fuel(arrow_is_mappable, 2);
    if c == SampleColumn::Structed {
        if let ArrowDataType::Struct(fs) = f.data_type {
            assert(arrow_is_mappable(fs@[0].data_type));
            assert(arrow_is_mappable(fs@[1].data_type));
        }
    }
}

/// The Delta field that the table gets for a sample column is the one
/// that `is_sample_delta_field` describes.
pub proof fn lemma_sample_field_converts(f: ArrowField, g: StructField, c: SampleColumn)
    requires
        is_sample_field(f, c),
        field_converts_to(f, g),
    ensures
        is_sample_delta_field(g, c),
{
    if c == SampleColumn::Structed {
        if let ArrowDataType::Struct(fs) = f.data_type {
            if let SchemaDataType::Struct(ds) = g.data_type {
                assert(converts_to(fs@[0].data_type, ds@[0].data_type));
                assert(converts_to(fs@[1].data_type, ds@[1].data_type));
            }
        }
    }
    if c == SampleColumn::Listed {
        if let ArrowDataType::List(e) = f.data_type {
            if let SchemaDataType::Array(de, cn) = g.data_type {
                assert(converts_to(e.data_type, *de));
                assert(*de == SchemaDataType::Primitive(PrimitiveType::Integer));
            }
        }
    }
}

/// The Delta schema with which the populate program creates its table:
/// one field per column of `get_columns`, with the same name and
/// nullability and the mapped type.
pub fn table_columns(config: &Config) -> (r: Vec<StructField>)
    ensures
        r@.len() == schema_plan(*config).len(),
        forall|i: int| 0 <= i < r@.len() ==> is_sample_delta_field(
            #[trigger] r@[i],
            schema_plan(*config)[i],
        ),
{
    let columns = get_columns(config);
    proof {
        assert forall|i: int| 0 <= i < columns@.len() implies arrow_is_mappable(
            #[trigger] columns@[i].data_type,
        ) by {
            lemma_sample_field_is_mappable(columns@[i], schema_plan(*config)[i]);
        }
    }
    let r = create_schema_fields(&columns);
    proof {
        assert forall|i: int| 0 <= i < r@.len() implies is_sample_delta_field(
            #[trigger] r@[i],
            schema_plan(*config)[i],
        ) by {
            assert(is_sample_field(columns@[i], schema_plan(*config)[i]));
            lemma_sample_field_converts(columns@[i], r@[i], schema_plan(*config)[i]);
        }
    }
    r
}


/// The values of one Arrow column.
#[derive(Debug, PartialEq, Eq)]
pub enum ColumnData {
    Int64(Vec<i64>),
    Boolean(Vec<bool>),
    Utf8(Vec<String>),
    /// Days since the Unix epoch; `None` is a null.
    Date32(Vec<Option<i32>>),
    /// Lists of 32 bit integers whose items may be null.
    ListInt32(Vec<Vec<i32>>),
    /// A struct column: its fields and one child column per field.
    Struct(Vec<ArrowField>, Vec<ColumnData>),
    /// Unscaled decimal values, with their precision and scale.
    Decimal128(Vec<i128>, u8, i8),
}

/// Number of rows of a column (of a struct column: of its first child).
pub open spec fn column_len(c: ColumnData) -> nat
    decreases c,
{
    match c {
        ColumnData::Int64(v) => v@.len(),
        ColumnData::Boolean(v) => v@.len(),
        ColumnData::Utf8(v) => v@.len(),
        ColumnData::Date32(v) => v@.len(),
        ColumnData::ListInt32(v) => v@.len(),
        ColumnData::Struct(_, ch) => if ch@.len() > 0 {
            column_len(ch@[0])
        } else {
            0
        },
        ColumnData::Decimal128(v, _, _) => v@.len(),
    }
}

/// Column `c` can stand under field `f`: it has the field's type, holds
/// no null where the field forbids them, and, for a struct, its children
/// fit its fields and have one length.
pub open spec fn column_fits(c: ColumnData, f: ArrowField) -> bool
    decreases c,
{
    match c {
        ColumnData::Int64(_) => f.data_type == ArrowDataType::Int64,
        ColumnData::Boolean(_) => f.data_type == ArrowDataType::Boolean,
        ColumnData::Utf8(_) => f.data_type == ArrowDataType::Utf8,
        ColumnData::Date32(v) => f.data_type == ArrowDataType::Date32 && (!f.nullable ==> forall|i: int|
            0 <= i < v@.len() ==> (#[trigger] v@[i]) is Some),
        ColumnData::ListInt32(_) => is_sample_list_type(f.data_type),
        ColumnData::Struct(fs, ch) => match f.data_type {
            ArrowDataType::Struct(tfs) => {
                &&& fs@.len() == tfs@.len()
                &&& ch@.len() == fs@.len()
                &&& forall|i: int| 0 <= i < fs@.len() ==> {
                    &&& (#[trigger] fs@[i]).name@ == tfs@[i].name@
                    &&& fs@[i].data_type == tfs@[i].data_type
                    &&& fs@[i].nullable == tfs@[i].nullable
                    &&& column_fits(ch@[i], fs@[i])
                    &&& column_len(ch@[i]) == column_len(c)
                }
            },
            _ => false,
        },
        ColumnData::Decimal128(_, p, s) => f.data_type == ArrowDataType::Decimal128(p, s),
    }
}

/// The columns fit the schema: one per field, each fitting its field, all
/// of one length. Arrow builds a record batch from them exactly then.
pub open spec fn batch_fits(fields: Seq<ArrowField>, columns: Seq<ColumnData>) -> bool {
    &&& fields.len() == columns.len()
    &&& forall|i: int| 0 <= i < fields.len() ==> column_fits(#[trigger] columns[i], fields[i])
    &&& forall|i: int| 0 <= i < columns.len() ==> column_len(#[trigger] columns[i]) == column_len(
        columns[0],
    )
}

/// `v` holds the strings "foo", "baz", "bar".
pub open spec fn is_sample_strings(v: Seq<String>) -> bool {
    v.len() == 3 && v[0]@ == "foo"@ && v[1]@ == "baz"@ && v[2]@ == "bar"@
}

/// `c` holds the sample values of column `col`, with `day` as the date.
pub open spec fn is_sample_data(c: ColumnData, col: SampleColumn, day: Option<i32>) -> bool {
    match col {
        SampleColumn::X => match c {
            ColumnData::Int64(v) => v@ == seq![1i64, 2, 3],
            _ => false,
        },
        SampleColumn::Other => match c {
            ColumnData::Boolean(v) => v@ == seq![true, false, true],
            _ => false,
        },
        SampleColumn::Third => match c {
            ColumnData::Utf8(v) => is_sample_strings(v@),
            _ => false,
        },
        SampleColumn::D => match c {
            ColumnData::Date32(v) => v@ == seq![day, day, day],
            _ => false,
        },
        SampleColumn::Listed => match c {
            ColumnData::ListInt32(v) => v@.len() == 3 && v@[0]@ == seq![1i32, 2, 3] && v@[1]@
                == seq![2i32] && v@[2]@ == seq![3i32],
            _ => false,
        },
        SampleColumn::Structed => match c {
            ColumnData::Struct(fs, ch) => {
                &&& fs@.len() == 2 && ch@.len() == 2
                &&& plain_field(fs@[0], "a"@, ArrowDataType::Int64, false)
                &&& plain_field(fs@[1], "b"@, ArrowDataType::Utf8, false)
                &&& ch@[0] matches ColumnData::Int64(a) && a@ == seq![1i64, 2, 3]
                &&& ch@[1] matches ColumnData::Utf8(b) && is_sample_strings(b@)
            },
            _ => false,
        },
        SampleColumn::Decimal => match c {
            ColumnData::Decimal128(v, p, s) => v@ == seq![1i128, 2, 3] && p == 10 && s == 2,
            _ => false,
        },
    }
}


/// `columns` hold the sample values of the columns `plan`, in order.
pub open spec fn data_follow(columns: Seq<ColumnData>, plan: Seq<SampleColumn>, day: Option<i32>) -> bool {
    columns.len() == plan.len() && forall|i: int|
        0 <= i < plan.len() ==> is_sample_data(#[trigger] columns[i], plan[i], day)
}

fn sample_strings() -> (r: Vec<String>)
    ensures
        is_sample_strings(r@),
{
    let mut v: Vec<String> = Vec::new();
    v.push("foo".to_owned());
    v.push("baz".to_owned());
    v.push("bar".to_owned());
    v
}

fn sample_ints() -> (r: Vec<i64>)
    ensures
        r@ == seq![1i64, 2, 3],
{
    let mut v: Vec<i64> = Vec::new();
    v.push(1);
    v.push(2);
    v.push(3);
    v
}

/// The sample values of one column, with `day` as the date.
pub fn sample_data(col: SampleColumn, day: Option<i32>) -> (r: ColumnData)
    ensures
        is_sample_data(r, col, day),
{
    match col {
        SampleColumn::X => ColumnData::Int64(sample_ints()),
        SampleColumn::Other => {
            let mut v: Vec<bool> = Vec::new();
            v.push(true);
            v.push(false);
            v.push(true);
            assert(v@ =~= seq![true, false, true]);
            ColumnData::Boolean(v)
        },
        SampleColumn::Third => ColumnData::Utf8(sample_strings()),
        SampleColumn::D => {
            let mut v: Vec<Option<i32>> = Vec::new();
            v.push(day);
            v.push(day);
            v.push(day);
            assert(v@ =~= seq![day, day, day]);
            ColumnData::Date32(v)
        },
        SampleColumn::Listed => {
            let mut first: Vec<i32> = Vec::new();
            first.push(1);
            first.push(2);
            first.push(3);
            assert(first@ =~= seq![1i32, 2, 3]);
            let mut second: Vec<i32> = Vec::new();
            second.push(2);
            let mut third: Vec<i32> = Vec::new();
            third.push(3);
            let mut v: Vec<Vec<i32>> = Vec::new();
            v.push(first);
            v.push(second);
            v.push(third);
            ColumnData::ListInt32(v)
        },
        SampleColumn::Structed => {
            let mut fs: Vec<ArrowField> = Vec::new();
            fs.push(plain("a", ArrowDataType::Int64, false));
            fs.push(plain("b", ArrowDataType::Utf8, false));
            let mut ch: Vec<ColumnData> = Vec::new();
            ch.push(ColumnData::Int64(sample_ints()));
            ch.push(ColumnData::Utf8(sample_strings()));
            ColumnData::Struct(fs, ch)
        },
        SampleColumn::Decimal => {
            let mut v: Vec<i128> = Vec::new();
            v.push(1);
            v.push(2);
            v.push(3);
            assert(v@ =~= seq![1i128, 2, 3]);
            ColumnData::Decimal128(v, 10, 2)
        },
    }
}

/// The columns of the sample record batch, with `day` as the date of
/// every row: `x` = 1, 2, 3; `other` = true, false, true; `third` =
/// "foo", "baz", "bar"; `d` = `day` three times; then the struct of
/// `a` = 1, 2, 3 and `b` = "foo", "baz", "bar", the lists [1, 2, 3], [2],
/// [3], and the decimals 0.01, 0.02, 0.03, as the configuration asks: one
/// column per field of `get_columns`, in the same order.
pub fn record_batch_columns(config: &Config, day: Option<i32>) -> (r: Vec<ColumnData>)
    ensures
        data_follow(r@, schema_plan(*config), day),
{
    let mut columns: Vec<ColumnData> = Vec::new();
    columns.push(sample_data(SampleColumn::X, day));
    columns.push(sample_data(SampleColumn::Other, day));
    columns.push(sample_data(SampleColumn::Third, day));
    columns.push(sample_data(SampleColumn::D, day));
    let ghost mut plan: Seq<SampleColumn> = seq![
        SampleColumn::X,
        SampleColumn::Other,
        SampleColumn::Third,
        SampleColumn::D,
    ];
    if config.with_struct {
        columns.push(sample_data(SampleColumn::Structed, day));
        proof { plan = plan.push(SampleColumn::Structed); }
    }
    if config.with_list {
        columns.push(sample_data(SampleColumn::Listed, day));
        proof { plan = plan.push(SampleColumn::Listed); }
    }
    if config.with_decimal {
        columns.push(sample_data(SampleColumn::Decimal, day));
        proof { plan = plan.push(SampleColumn::Decimal); }
    }
    assert(plan =~= schema_plan(*config));
    columns
}


/// A sample column fits its schema field and has three rows, when the
/// date is not null.
pub proof fn lemma_sample_column_fits(
    f: ArrowField,
    c: ColumnData,
    col: SampleColumn,
    day: Option<i32>,
)
    requires
        is_sample_field(f, col),
        is_sample_data(c, col, day),
        day is Some,
    ensures
        column_fits(c, f),
        column_len(c) == 3,
{
    reveal_with_fuel(column_fits, 2);
    reveal_with_fuel(column_len, 2);
    if let ColumnData::Date32(v) = c {
        assert(forall|i: int| 0 <= i < v@.len() ==> (#[trigger] v@[i]) is Some);
    }
    if let ColumnData::Struct(fs, ch) = c {
        if let ArrowDataType::Struct(tfs) = f.data_type {
            assert(column_fits(ch@[0], fs@[0]));
            assert(column_fits(ch@[1], fs@[1]));
            assert(column_len(c) == column_len(ch@[0]));
        }
    }
}

/// Law of the sample record batch: with a non-null date, its columns fit
/// the schema of `get_columns` for every configuration (one column per
/// field, each of the field's type, no nulls in non-nullable fields, three
/// rows each), so Arrow builds a record batch from them.
pub proof fn lemma_record_batch_fits_schema(
    config: Config,
    fields: Seq<ArrowField>,
    columns: Seq<ColumnData>,
    day: Option<i32>,
)
    requires
        fields_follow(fields, schema_plan(config)),
        data_follow(columns, schema_plan(config), day),
        day is Some,
    ensures
        batch_fits(fields, columns),
{
    assert forall|i: int| 0 <= i < fields.len() implies column_fits(
        #[trigger] columns[i],
        fields[i],
    ) && column_len(columns[i]) == 3 by {
        lemma_sample_column_fits(fields[i], columns[i], schema_plan(config)[i], day);
    }
    assert(column_len(columns[0]) == 3);
}

/// The number of days since the Unix epoch that Arrow's date parser reads
/// from a string, or `None` where it reads no date.
pub uninterp spec fn date32_of(s: Seq<char>) -> Option<i32>;

/// Calls Arrow's `Parser::parse` for `Date32Type`. Claimed: the result is
/// `date32_of` of the string, i.e. it depends on the string alone (the
/// parser reads a calendar date, with no time zone or locale). What date a
/// given string holds is left unsaid.
#[verifier::external_body]
pub(crate) fn parse_date32(s: &str) -> (r: Option<i32>)
    ensures
        r == date32_of(s@),
{
    Date32Type::parse(s)
}

/// A record batch: its schema and its columns.
pub struct SampleBatch {
    pub schema: Vec<ArrowField>,
    pub columns: Vec<ColumnData>,
}

/// The record batch that the populate program writes: the schema of
/// `get_columns` and the columns of `record_batch_columns`, dated
/// 2022-10-04.
pub fn create_record_batch(config: &Config) -> (r: SampleBatch)
    ensures
        fields_follow(r.schema@, schema_plan(*config)),
        data_follow(r.columns@, schema_plan(*config), date32_of("2022-10-04"@)),
        date32_of("2022-10-04"@) is Some ==> batch_fits(r.schema@, r.columns@),
{
    let schema = get_columns(config);
    let day = parse_date32("2022-10-04");
    let columns = record_batch_columns(config, day);
    proof {
        if day is Some {
            lemma_record_batch_fits_schema(*config, schema@, columns@, day);
        }
    }
    SampleBatch { schema, columns }
}


/// Whether a flag's stored value turns it on: the argument parser stores
/// "true" for a flag that was given.
pub fn flag_value(user: &str) -> (r: bool)
    ensures
        r == (user@ == "true"@),
{
    text_eq(user, "true")
}

/// What became of loading an existing table.
pub enum LoadOutcome {
    /// The table loaded; its protocol's minimum writer version, if it has
    /// a protocol.
    Loaded(Option<i32>),
    /// There is no table at the location.
    NotATable,
    /// Loading failed otherwise.
    Failed,
}

/// What the populate program does after trying to load its table.
#[derive(Debug, Clone, Copy, PartialEq, Eq)]
pub enum TableDecision {
    /// Write to the loaded table.
    UseLoaded,
    /// Create the table.
    Create,
    /// Stop: loading failed.
    LoadFailed,
    /// Stop: the loaded table has no protocol.
    NoProtocol,
    /// Stop: the loaded table's minimum writer version is not 0.
    WriterVersionMismatch,
}

/// The decision for a load outcome.
pub open spec fn spec_table_decision(outcome: LoadOutcome) -> TableDecision {
    match outcome {
        LoadOutcome::Loaded(Some(v)) => if v == 0 {
            TableDecision::UseLoaded
        } else {
            TableDecision::WriterVersionMismatch
        },
        LoadOutcome::Loaded(None) => TableDecision::NoProtocol,
        LoadOutcome::NotATable => TableDecision::Create,
        LoadOutcome::Failed => TableDecision::LoadFailed,
    }
}

/// Decides what to do after trying to load the table: a missing table is
/// created, a loaded one is used if its protocol asks for writer version 0,
/// anything else stops the program.
pub fn table_decision(outcome: &LoadOutcome) -> (r: TableDecision)
    ensures
        r == spec_table_decision(*outcome),
{
    match outcome {
        LoadOutcome::Loaded(Some(v)) => if *v == 0 {
            TableDecision::UseLoaded
        } else {
            TableDecision::WriterVersionMismatch
        },
        LoadOutcome::Loaded(None) => TableDecision::NoProtocol,
        LoadOutcome::NotATable => TableDecision::Create,
        LoadOutcome::Failed => TableDecision::LoadFailed,
    }
}

/// A failed write of the record batch.
pub enum WriteFailure {
    /// A generic error with its message.
    Generic(String),
    /// Any other error.
    Other,
}

/// What the populate program does after a failed write.
#[derive(Debug, Clone, Copy, PartialEq, Eq)]
pub enum WriteDecision {
    /// Stop: the batch's schema does not match the table's.
    SchemaMismatch,
    /// Go on as if the write had succeeded.
    Ignore,
    /// Stop: some other error.
    Fail,
}

/// The decision for a failed write.
pub open spec fn spec_write_decision(failure: WriteFailure) -> WriteDecision {
    match failure {
        WriteFailure::Generic(msg) => if contains_text(msg@, "schema does not match"@) {
            WriteDecision::SchemaMismatch
        } else {
            WriteDecision::Ignore
        },
        WriteFailure::Other => WriteDecision::Fail,
    }
}

/// Decides what to do after a failed write: a generic error that says
/// "schema does not match" stops the program, another generic error is
/// ignored, and any other error stops the program.
pub fn write_decision(failure: &WriteFailure) -> (r: WriteDecision)
    ensures
        r == spec_write_decision(*failure),
{
    match failure {
        WriteFailure::Generic(msg) => if text_contains(msg.as_str(), "schema does not match") {
            WriteDecision::SchemaMismatch
        } else {
            WriteDecision::Ignore
        },
        WriteFailure::Other => WriteDecision::Fail,
    }
}


/// The Delta field of a sample column has a DuckDB type exactly when the
/// column is neither the struct nor the decimal column.
pub proof fn lemma_sample_delta_field_mappable(g: StructField, c: SampleColumn)
    requires
        is_sample_delta_field(g, c),
    ensures
        is_mappable(g.data_type) <==> (c != SampleColumn::Structed && c != SampleColumn::Decimal),
{
    reveal_with_fuel(is_mappable, 2);
}

/// Law across the two programs: the table function can bind the table
/// that the populate program creates exactly when the configuration asks
/// for neither a struct nor a decimal column; the types of all other
/// columns have DuckDB counterparts.
pub proof fn lemma_sample_table_bindable(config: Config, columns: Seq<StructField>)
    requires
        columns.len() == schema_plan(config).len(),
        forall|i: int|
            0 <= i < columns.len() ==> is_sample_delta_field(#[trigger] columns[i], schema_plan(config)[i]),
    ensures
        (forall|i: int| 0 <= i < columns.len() ==> is_mappable(#[trigger] columns[i].data_type))
            <==> !(config.with_struct || config.with_decimal),
{
    let plan = schema_plan(config);
    assert forall|i: int| 0 <= i < columns.len() implies (is_mappable(#[trigger] columns[i].data_type)
        <==> (plan[i] != SampleColumn::Structed && plan[i] != SampleColumn::Decimal)) by {
        lemma_sample_delta_field_mappable(columns[i], plan[i]);
    }
    if config.with_struct {
        assert(plan[4] == SampleColumn::Structed);
        assert(!is_mappable(columns[4].data_type));
    }
    if config.with_decimal {
        let k = plan.len() - 1;
        assert(plan[k] == SampleColumn::Decimal);
        assert(!is_mappable(columns[k].data_type));
    }
    if !(config.with_struct || config.with_decimal) {
        assert forall|i: int| 0 <= i < columns.len() implies is_mappable(#[trigger] columns[i].data_type) by {
            assert(plan[i] != SampleColumn::Structed && plan[i] != SampleColumn::Decimal);
        }
    }
}


/// How the populate program creates its table.
pub struct TableCreation {
    /// Name of the table.
    pub table_name: String,
    /// Minimum reader version of the table's protocol.
    pub min_reader_version: i32,
    /// Minimum writer version of the table's protocol.
    pub min_writer_version: i32,
    /// The table's Delta schema.
    pub columns: Vec<StructField>,
}

/// The table the populate program creates: named "my_table", with
/// protocol versions 0 and 0, and the schema of `table_columns`.
pub fn table_creation(config: &Config) -> (r: TableCreation)
    ensures
        r.table_name@ == "my_table"@,
        r.min_reader_version == 0,
        r.min_writer_version == 0,
        r.columns@.len() == schema_plan(*config).len(),
        forall|i: int| 0 <= i < r.columns@.len() ==> is_sample_delta_field(
            #[trigger] r.columns@[i],
            schema_plan(*config)[i],
        ),
{
    TableCreation {
        table_name: "my_table".to_owned(),
        min_reader_version: 0,
        min_writer_version: 0,
        columns: table_columns(config),
    }
}

/// The columns by which the populate program's commit says the data is
/// partitioned: `x`.
pub fn partition_columns() -> (r: Vec<String>)
    ensures
        r@.len() == 1,
        r@[0]@ == "x"@,
{
    let mut v: Vec<String> = Vec::new();
    v.push("x".to_owned());
    v
}


/// Law of list nullability: the Delta array that an Arrow list becomes
/// may hold nulls exactly when the list's item field is nullable, and its
/// element type is what the item type becomes.
pub proof fn lemma_list_keeps_nullability(e: ArrowField, d: SchemaDataType)
    requires
        converts_to(ArrowDataType::List(Box::new(e)), d),
    ensures
        d matches SchemaDataType::Array(de, contains_null) && contains_null == e.nullable
            && converts_to(e.data_type, *de),
{
}

/// Law of map nullability: the Delta map that an Arrow map becomes may
/// hold null values exactly when the entries field is nullable.
pub proof fn lemma_map_keeps_nullability(e: ArrowField, sorted: bool, d: SchemaDataType)
    requires
        converts_to(ArrowDataType::MapOf(Box::new(e), sorted), d),
    ensures
        d matches SchemaDataType::MapOf(_, _, value_contains_null) && value_contains_null
            == e.nullable,
{
}

/// Law of the table decision: a loaded table is used exactly when its
/// protocol's minimum writer version is 0; any other version stops the
/// program with a version mismatch, a loaded table without protocol stops
/// it, a missing table is created and a failed load stops the program.
pub proof fn lemma_table_decision(outcome: LoadOutcome)
    ensures
        (spec_table_decision(outcome) == TableDecision::UseLoaded) <==> outcome == LoadOutcome::Loaded(
            Some(0i32),
        ),
        forall|v: i32| v != 0 ==> spec_table_decision(LoadOutcome::Loaded(Some(v)))
            == TableDecision::WriterVersionMismatch,
        spec_table_decision(LoadOutcome::Loaded(None)) == TableDecision::NoProtocol,
        (spec_table_decision(outcome) == TableDecision::Create) <==> outcome is NotATable,
        (spec_table_decision(outcome) == TableDecision::LoadFailed) <==> outcome is Failed,
{
}


/// Law of the Arrow primitive types: booleans, 64 and 32 bit integers,
/// 32 bit dates, UTF-8 strings and decimals become the Delta boolean,
/// long, integer, date, string and decimal of the same precision and
/// scale.
pub proof fn lemma_arrow_primitive_table(a: ArrowDataType, d: SchemaDataType)
    requires
        converts_to(a, d),
    ensures
        a == ArrowDataType::Boolean ==> d == SchemaDataType::Primitive(PrimitiveType::Boolean),
        a == ArrowDataType::Int64 ==> d == SchemaDataType::Primitive(PrimitiveType::Long),
        a == ArrowDataType::Int32 ==> d == SchemaDataType::Primitive(PrimitiveType::Integer),
        a == ArrowDataType::Date32 ==> d == SchemaDataType::Primitive(PrimitiveType::Date),
        a == ArrowDataType::Utf8 ==> d == SchemaDataType::Primitive(PrimitiveType::String),
        forall|p: u8, sc: i8| a == ArrowDataType::Decimal128(p, sc) ==> d == SchemaDataType::Primitive(
            PrimitiveType::Decimal(p, sc),
        ),
{
}

/// Law of the write decision: the program stops with a schema mismatch
/// exactly on a generic error whose message holds "schema does not
/// match", ignores every other generic error, and stops on any other
/// error.
pub proof fn lemma_write_decision(failure: WriteFailure)
    ensures
        (spec_write_decision(failure) == WriteDecision::SchemaMismatch) <==> (failure matches WriteFailure::Generic(m)
            && exists|i: int| crate::text::occurs_at(m@, "schema does not match"@, i)),
        (spec_write_decision(failure) == WriteDecision::Ignore) <==> (failure matches WriteFailure::Generic(m)
            && forall|i: int| !crate::text::occurs_at(m@, "schema does not match"@, i)),
        (spec_write_decision(failure) == WriteDecision::Fail) <==> failure is Other,
{
}

} // verus!
