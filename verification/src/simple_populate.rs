//! The smaller populate program: a fixed table of four columns at a fixed
//! location, with primitive Delta types named by strings.

use vstd::prelude::*;
use crate::text::text_eq;
use crate::types::PrimitiveType;
use crate::populate::{
    batch_fits, data_follow, date32_of, fields_follow, is_sample_field, lemma_sample_column_fits,
    parse_date32, sample_data, sample_field, ArrowDataType, ArrowField,
    LoadOutcome, SampleBatch, SampleColumn, TableDecision,
};

verus! {

/// Location of the table that the program writes.
pub const SIMPLE_TABLE_LOCATION: &'static str = "test/simple_table";

/// The table's columns: `x`, `other`, `third` and `d`.
pub open spec fn simple_plan() -> Seq<SampleColumn> {
    seq![SampleColumn::X, SampleColumn::Other, SampleColumn::Third, SampleColumn::D]
}

/// The table's Arrow schema.
pub fn simple_columns() -> (r: Vec<ArrowField>)
    ensures
        fields_follow(r@, simple_plan()),
{
    let mut v: Vec<ArrowField> = Vec::new();
    v.push(sample_field(SampleColumn::X));
    v.push(sample_field(SampleColumn::Other));
    v.push(sample_field(SampleColumn::Third));
    v.push(sample_field(SampleColumn::D));
    v
}

/// Whether `map_type` names a Delta type for an Arrow type.
pub open spec fn simple_is_mappable(t: ArrowDataType) -> bool {
    t == ArrowDataType::Boolean || t == ArrowDataType::Int64 || t == ArrowDataType::Date32
        || t == ArrowDataType::Utf8
}

/// The name of the primitive Delta type for an Arrow type.
pub open spec fn spec_simple_primitive(t: ArrowDataType) -> Seq<char> {
    match t {
        ArrowDataType::Boolean => "boolean"@,
        ArrowDataType::Int64 => "long"@,
        ArrowDataType::Date32 => "date"@,
        _ => "string"@,
    }
}

/// Tells whether `map_type` accepts `t`.
pub fn simple_type_is_mappable(t: &ArrowDataType) -> (r: bool)
    ensures
        r == simple_is_mappable(*t),
{
    match t {
        ArrowDataType::Boolean => true,
        ArrowDataType::Int64 => true,
        ArrowDataType::Date32 => true,
        ArrowDataType::Utf8 => true,
        _ => false,
    }
}

/// Names the primitive Delta type of a column: "boolean", "long", "date"
/// or "string".
pub fn map_type(data_type: &ArrowDataType) -> (r: String)
    requires
        simple_is_mappable(*data_type),
    ensures
        r@ == spec_simple_primitive(*data_type),
{
    match data_type {
        ArrowDataType::Boolean => "boolean".to_owned(),
        ArrowDataType::Int64 => "long".to_owned(),
        ArrowDataType::Date32 => "date".to_owned(),
        _ => "string".to_owned(),
    }
}

/// A column of the Delta schema: its name and primitive type name; all
/// columns are not nullable.
pub struct SimpleSchemaField {
    pub name: String,
    pub primitive: String,
}

/// The Delta schema with which the program creates its table: the names
/// of `x`, `other`, `third` and `d` with the types "long", "boolean",
/// "string" and "date".
pub fn simple_table_columns() -> (r: Vec<SimpleSchemaField>)
    ensures
        r@.len() == 4,
        r@[0].name@ == "x"@ && r@[0].primitive@ == "long"@,
        r@[1].name@ == "other"@ && r@[1].primitive@ == "boolean"@,
        r@[2].name@ == "third"@ && r@[2].primitive@ == "string"@,
        r@[3].name@ == "d"@ && r@[3].primitive@ == "date"@,
{
    let columns = simple_columns();
    let mut out: Vec<SimpleSchemaField> = Vec::new();
    let mut i: usize = 0;
    while i < columns.len()
        invariant
            fields_follow(columns@, simple_plan()),
            i <= columns@.len(),
            out@.len() == i,
            forall|j: int|
                0 <= j < i ==> {
                    &&& (#[trigger] out@[j]).name@ == columns@[j].name@
                    &&& out@[j].primitive@ == spec_simple_primitive(columns@[j].data_type)
                },
        decreases columns@.len() - i,
    {
        assert(is_sample_field(columns@[i as int], simple_plan()[i as int]));
        let f = &columns[i];
        let t = map_type(&f.data_type);
        out.push(SimpleSchemaField { name: f.name.clone(), primitive: t });
        i = i + 1;
    }
    assert(is_sample_field(columns@[0], SampleColumn::X));
    assert(is_sample_field(columns@[1], SampleColumn::Other));
    assert(is_sample_field(columns@[2], SampleColumn::Third));
    assert(is_sample_field(columns@[3], SampleColumn::D));
    out
}

/// The record batch that the program writes: the four columns, dated
/// 2022-10-04; when that date parses, the columns fit the schema.
pub fn create_simple_record_batch() -> (r: SampleBatch)
    ensures
        fields_follow(r.schema@, simple_plan()),
        data_follow(r.columns@, simple_plan(), date32_of("2022-10-04"@)),
        date32_of("2022-10-04"@) is Some ==> batch_fits(r.schema@, r.columns@),
{
    let schema = simple_columns();
    let day = parse_date32("2022-10-04");
    let mut columns: Vec<crate::populate::ColumnData> = Vec::new();
    columns.push(sample_data(SampleColumn::X, day));
    columns.push(sample_data(SampleColumn::Other, day));
    columns.push(sample_data(SampleColumn::Third, day));
    columns.push(sample_data(SampleColumn::D, day));
    proof {
        if day is Some {
            assert forall|i: int| 0 <= i < 4 implies crate::populate::column_fits(
                #[trigger] columns@[i],
                schema@[i],
            ) && crate::populate::column_len(columns@[i]) == 3 by {
                lemma_sample_column_fits(schema@[i], columns@[i], simple_plan()[i], day);
            }
        }
    }
    SampleBatch { schema, columns }
}

/// The decision for a load outcome: a missing table is created, a loaded
/// one is used as it is, and a failure stops the program.
pub open spec fn spec_simple_table_decision(outcome: LoadOutcome) -> TableDecision {
    match outcome {
        LoadOutcome::Loaded(_) => TableDecision::UseLoaded,
        LoadOutcome::NotATable => TableDecision::Create,
        LoadOutcome::Failed => TableDecision::LoadFailed,
    }
}

/// Decides what to do after trying to load the table.
pub fn simple_table_decision(outcome: &LoadOutcome) -> (r: TableDecision)
    ensures
        r == spec_simple_table_decision(*outcome),
{
    match outcome {
        LoadOutcome::Loaded(_) => TableDecision::UseLoaded,
        LoadOutcome::NotATable => TableDecision::Create,
        LoadOutcome::Failed => TableDecision::LoadFailed,
    }
}


/// The primitive Delta type that a type name of the Delta protocol names,
/// for the names of the types without parameters.
pub open spec fn spec_primitive_type_named(name: Seq<char>) -> Option<PrimitiveType> {
    if name == "string"@ {
        Some(PrimitiveType::String)
    } else if name == "long"@ {
        Some(PrimitiveType::Long)
    } else if name == "integer"@ {
        Some(PrimitiveType::Integer)
    } else if name == "short"@ {
        Some(PrimitiveType::Short)
    } else if name == "byte"@ {
        Some(PrimitiveType::Byte)
    } else if name == "float"@ {
        Some(PrimitiveType::Float)
    } else if name == "double"@ {
        Some(PrimitiveType::Double)
    } else if name == "boolean"@ {
        Some(PrimitiveType::Boolean)
    } else if name == "binary"@ {
        Some(PrimitiveType::Binary)
    } else if name == "date"@ {
        Some(PrimitiveType::Date)
    } else if name == "timestamp"@ {
        Some(PrimitiveType::Timestamp)
    } else {
        None
    }
}

/// Reads a primitive type name of the Delta protocol; `None` for a name
/// that is not one.
pub fn primitive_type_named(name: &str) -> (r: Option<PrimitiveType>)
    ensures
        r == spec_primitive_type_named(name@),
{
    if text_eq(name, "string") {
        Some(PrimitiveType::String)
    } else if text_eq(name, "long") {
        Some(PrimitiveType::Long)
    } else if text_eq(name, "integer") {
        Some(PrimitiveType::Integer)
    } else if text_eq(name, "short") {
        Some(PrimitiveType::Short)
    } else if text_eq(name, "byte") {
        Some(PrimitiveType::Byte)
    } else if text_eq(name, "float") {
        Some(PrimitiveType::Float)
    } else if text_eq(name, "double") {
        Some(PrimitiveType::Double)
    } else if text_eq(name, "boolean") {
        Some(PrimitiveType::Boolean)
    } else if text_eq(name, "binary") {
        Some(PrimitiveType::Binary)
    } else if text_eq(name, "date") {
        Some(PrimitiveType::Date)
    } else if text_eq(name, "timestamp") {
        Some(PrimitiveType::Timestamp)
    } else {
        None
    }
}

/// Name of the table that the program creates: "my_table".
pub fn simple_table_name() -> (r: String)
    ensures
        r@ == "my_table"@,
{
    "my_table".to_owned()
}


/// Law of the smaller program's table decision: every loaded table is
/// used, whatever its protocol says; a missing table is created; a failed
/// load stops the program.
pub proof fn lemma_simple_table_decision(outcome: LoadOutcome)
    ensures
        (spec_simple_table_decision(outcome) == TableDecision::UseLoaded) <==> outcome is Loaded,
        forall|p: Option<i32>| spec_simple_table_decision(LoadOutcome::Loaded(p))
            == TableDecision::UseLoaded,
        (spec_simple_table_decision(outcome) == TableDecision::Create) <==> outcome is NotATable,
        (spec_simple_table_decision(outcome) == TableDecision::LoadFailed) <==> outcome is Failed,
{
}

} // verus!
