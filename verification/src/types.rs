//! Data types of a Delta table schema, data types of DuckDB, and the
//! mapping from the former to the latter that the table function uses to
//! declare its result columns.

use vstd::prelude::*;

verus! {

/// Primitive types of a Delta table schema.
#[derive(Debug, Clone, Copy, PartialEq, Eq)]
pub enum PrimitiveType {
    /// UTF-8 encoded string.
    String,
    /// 8-byte signed integer.
    Long,
    /// 4-byte signed integer.
    Integer,
    /// 2-byte signed integer.
    Short,
    /// 1-byte signed integer.
    Byte,
    /// 4-byte floating point number.
    Float,
    /// 8-byte floating point number.
    Double,
    /// Boolean value.
    Boolean,
    /// Uninterpreted binary data.
    Binary,
    /// Calendar date.
    Date,
    /// Microsecond precision timestamp, adjusted to UTC.
    Timestamp,
    /// Microsecond precision timestamp without a time zone.
    TimestampNtz,
    /// Decimal number with the given precision and scale.
    Decimal(u8, i8),
}

/// A data type of a Delta table schema.
#[derive(Debug, PartialEq, Eq)]
pub enum SchemaDataType {
    /// A primitive type.
    Primitive(PrimitiveType),
    /// A variable length collection of elements of one type; the flag says
    /// whether elements may be null.
    Array(Box<SchemaDataType>, bool),
    /// A struct with named fields.
    Struct(Vec<StructField>),
    /// Key-value pairs with one key type and one value type; the flag says
    /// whether values may be null.
    MapOf(Box<SchemaDataType>, Box<SchemaDataType>, bool),
}

/// A named field of a Delta table schema.
#[derive(Debug, PartialEq, Eq)]
pub struct StructField {
    /// Field name.
    pub name: String,
    /// Field type.
    pub data_type: SchemaDataType,
    /// Whether the field may hold nulls.
    pub nullable: bool,
}

/// DuckDB logical type ids produced by the mapping.
#[derive(Debug, Clone, Copy, PartialEq, Eq)]
pub enum LogicalTypeId {
    /// BOOLEAN
    Boolean,
    /// TINYINT
    Tinyint,
    /// SMALLINT
    Smallint,
    /// INTEGER
    Integer,
    /// BIGINT
    Bigint,
    /// FLOAT
    Float,
    /// DOUBLE
    Double,
    /// DATE
    Date,
    /// TIMESTAMP, with microsecond precision
    Timestamp,
    /// VARCHAR
    Varchar,
}

/// A DuckDB logical type: a type id, a list of a child type, or a map.
#[derive(Debug, PartialEq, Eq)]
pub enum DuckLogicalType {
    /// A type given by its id alone.
    Id(LogicalTypeId),
    /// A list of elements of the child type.
    List(Box<DuckLogicalType>),
    /// A map from the key type to the value type.
    MapOf(Box<DuckLogicalType>, Box<DuckLogicalType>),
}

/// Whether a primitive Delta type has a DuckDB counterpart.
pub open spec fn primitive_is_mappable(p: PrimitiveType) -> bool {
    !(p is TimestampNtz || p is Decimal)
}

/// The DuckDB type id of a mappable primitive Delta type.
pub open spec fn spec_map_primitive_type(p: PrimitiveType) -> LogicalTypeId {
    match p {
        PrimitiveType::String => LogicalTypeId::Varchar,
        PrimitiveType::Long => LogicalTypeId::Bigint,
        PrimitiveType::Integer => LogicalTypeId::Integer,
        PrimitiveType::Short => LogicalTypeId::Smallint,
        PrimitiveType::Byte => LogicalTypeId::Tinyint,
        PrimitiveType::Float => LogicalTypeId::Float,
        PrimitiveType::Double => LogicalTypeId::Double,
        PrimitiveType::Boolean => LogicalTypeId::Boolean,
        PrimitiveType::Binary => LogicalTypeId::Varchar,
        PrimitiveType::Date => LogicalTypeId::Date,
        PrimitiveType::Timestamp => LogicalTypeId::Timestamp,
        _ => LogicalTypeId::Varchar,
    }
}

/// Whether a Delta type can be mapped: structs cannot, and neither can a
/// type that holds an unmappable primitive.
pub open spec fn is_mappable(t: SchemaDataType) -> bool
    decreases t,
{
    match t {
        SchemaDataType::Primitive(p) => primitive_is_mappable(p),
        SchemaDataType::Array(e, _) => is_mappable(*e),
        SchemaDataType::MapOf(k, v, _) => is_mappable(*k) && is_mappable(*v),
        SchemaDataType::Struct(_) => false,
    }
}

/// The DuckDB type of a mappable Delta type.
pub open spec fn spec_map_type(t: SchemaDataType) -> DuckLogicalType
    decreases t,
{
    match t {
        SchemaDataType::Primitive(p) => DuckLogicalType::Id(spec_map_primitive_type(p)),
        SchemaDataType::Array(e, _) => DuckLogicalType::List(Box::new(spec_map_type(*e))),
        SchemaDataType::MapOf(k, v, _) => DuckLogicalType::MapOf(
            Box::new(spec_map_type(*k)),
            Box::new(spec_map_type(*v)),
        ),
        SchemaDataType::Struct(_) => DuckLogicalType::Id(LogicalTypeId::Varchar),
    }
}

/// Tells whether `map_primitive_type` accepts `p`.
pub fn primitive_type_is_mappable(p: &PrimitiveType) -> (r: bool)
    ensures
        r == primitive_is_mappable(*p),
{
    match p {
        PrimitiveType::TimestampNtz => false,
        PrimitiveType::Decimal(_, _) => false,
        _ => true,
    }
}

/// Maps a primitive Delta type to its DuckDB type id.
pub fn map_primitive_type(name: &PrimitiveType) -> (r: LogicalTypeId)
    requires
        primitive_is_mappable(*name),
    ensures
        r == spec_map_primitive_type(*name),
{
    match name {
        PrimitiveType::String => LogicalTypeId::Varchar,
        PrimitiveType::Long => LogicalTypeId::Bigint,
        PrimitiveType::Integer => LogicalTypeId::Integer,
        PrimitiveType::Short => LogicalTypeId::Smallint,
        PrimitiveType::Byte => LogicalTypeId::Tinyint,
        PrimitiveType::Float => LogicalTypeId::Float,
        PrimitiveType::Double => LogicalTypeId::Double,
        PrimitiveType::Boolean => LogicalTypeId::Boolean,
        PrimitiveType::Binary => LogicalTypeId::Varchar,
        PrimitiveType::Date => LogicalTypeId::Date,
        PrimitiveType::Timestamp => LogicalTypeId::Timestamp,
        PrimitiveType::TimestampNtz => LogicalTypeId::Varchar,
        PrimitiveType::Decimal(_, _) => LogicalTypeId::Varchar,
    }
}

/// Tells whether `map_type` accepts `t`.
pub fn type_is_mappable(t: &SchemaDataType) -> (r: bool)
    ensures
        r == is_mappable(*t),
    decreases t,
{
    match t {
        SchemaDataType::Primitive(p) => primitive_type_is_mappable(p),
        SchemaDataType::Array(e, _) => type_is_mappable(e),
        SchemaDataType::MapOf(k, v, _) => type_is_mappable(k) && type_is_mappable(v),
        SchemaDataType::Struct(_) => false,
    }
}

/// Maps a Delta type to the DuckDB type of the column that holds it.
pub fn map_type(p0: &SchemaDataType) -> (r: DuckLogicalType)
    requires
        is_mappable(*p0),
    ensures
        r == spec_map_type(*p0),
    decreases p0,
{
    match p0 {
        SchemaDataType::Primitive(name) => DuckLogicalType::Id(map_primitive_type(name)),
        SchemaDataType::Array(element, _) => {
            let child = map_type(element);
            DuckLogicalType::List(Box::new(child))
        },
        SchemaDataType::MapOf(key, value, _) => {
            let k = map_type(key);
            let v = map_type(value);
            DuckLogicalType::MapOf(Box::new(k), Box::new(v))
        },
        SchemaDataType::Struct(_) => DuckLogicalType::Id(LogicalTypeId::Varchar),
    }
}


/// Law of the primitive type table: a mappable primitive Delta type is
/// declared as the DuckDB type fixed for it (strings and binary data as
/// VARCHAR, 8, 4, 2 and 1 byte integers as BIGINT, INTEGER, SMALLINT and
/// TINYINT, 4 and 8 byte floats as FLOAT and DOUBLE, booleans as BOOLEAN,
/// dates as DATE, microsecond timestamps as TIMESTAMP).
pub proof fn lemma_primitive_type_table(p: PrimitiveType)
    requires
        primitive_is_mappable(p),
    ensures
        is_mappable(SchemaDataType::Primitive(p)),
        p == PrimitiveType::String ==> spec_map_type(SchemaDataType::Primitive(p))
            == DuckLogicalType::Id(LogicalTypeId::Varchar),
        p == PrimitiveType::Long ==> spec_map_type(SchemaDataType::Primitive(p))
            == DuckLogicalType::Id(LogicalTypeId::Bigint),
        p == PrimitiveType::Integer ==> spec_map_type(SchemaDataType::Primitive(p))
            == DuckLogicalType::Id(LogicalTypeId::Integer),
        p == PrimitiveType::Short ==> spec_map_type(SchemaDataType::Primitive(p))
            == DuckLogicalType::Id(LogicalTypeId::Smallint),
        p == PrimitiveType::Byte ==> spec_map_type(SchemaDataType::Primitive(p))
            == DuckLogicalType::Id(LogicalTypeId::Tinyint),
        p == PrimitiveType::Float ==> spec_map_type(SchemaDataType::Primitive(p))
            == DuckLogicalType::Id(LogicalTypeId::Float),
        p == PrimitiveType::Double ==> spec_map_type(SchemaDataType::Primitive(p))
            == DuckLogicalType::Id(LogicalTypeId::Double),
        p == PrimitiveType::Boolean ==> spec_map_type(SchemaDataType::Primitive(p))
            == DuckLogicalType::Id(LogicalTypeId::Boolean),
        p == PrimitiveType::Binary ==> spec_map_type(SchemaDataType::Primitive(p))
            == DuckLogicalType::Id(LogicalTypeId::Varchar),
        p == PrimitiveType::Date ==> spec_map_type(SchemaDataType::Primitive(p))
            == DuckLogicalType::Id(LogicalTypeId::Date),
        p == PrimitiveType::Timestamp ==> spec_map_type(SchemaDataType::Primitive(p))
            == DuckLogicalType::Id(LogicalTypeId::Timestamp),
{
}

/// Law of nesting: an array of a mappable type is declared as a list of
/// the element's declared type, and a map as a map from the key's to the
/// value's declared type, whatever the null flags.
pub proof fn lemma_nested_types(e: SchemaDataType, k: SchemaDataType, v: SchemaDataType, flag: bool)
    ensures
        is_mappable(SchemaDataType::Array(Box::new(e), flag)) == is_mappable(e),
        is_mappable(SchemaDataType::MapOf(Box::new(k), Box::new(v), flag)) == (is_mappable(k)
            && is_mappable(v)),
        spec_map_type(SchemaDataType::Array(Box::new(e), flag)) matches DuckLogicalType::List(c)
            && *c == spec_map_type(e),
        spec_map_type(SchemaDataType::MapOf(Box::new(k), Box::new(v), flag)) matches
            DuckLogicalType::MapOf(ck, cv) && *ck == spec_map_type(k) && *cv == spec_map_type(v),
{
}

} // verus!
