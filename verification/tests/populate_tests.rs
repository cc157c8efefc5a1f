use deltatable::populate::{
    arrow_type_is_mappable, create_record_batch, create_schema_fields, flag_value, get_columns,
    map_type, partition_columns, record_batch_columns, sample_field, table_columns, table_creation,
    table_decision, write_decision, ArrowDataType, ArrowField, ColumnData, Config, LoadOutcome,
    SampleColumn, TableDecision, WriteDecision, WriteFailure,
};
use deltatable::simple_populate::{
    create_simple_record_batch, primitive_type_named, simple_columns, simple_table_columns,
    simple_table_decision, simple_table_name, simple_type_is_mappable, SIMPLE_TABLE_LOCATION,
};
use deltatable::types::{type_is_mappable, PrimitiveType, SchemaDataType};

fn config(with_list: bool, with_struct: bool, with_decimal: bool) -> Config {
    Config { filename: "t".to_string(), with_list, with_struct, with_decimal }
}

fn names(fields: &[ArrowField]) -> Vec<String> {
    fields.iter().map(|f| f.name.clone()).collect()
}

#[test]
fn plain_config_has_four_columns() {
    let cols = get_columns(&config(false, false, false));
    assert_eq!(names(&cols), vec!["x", "other", "third", "d"]);
    assert_eq!(cols[0].data_type, ArrowDataType::Int64);
    assert_eq!(cols[1].data_type, ArrowDataType::Boolean);
    assert_eq!(cols[2].data_type, ArrowDataType::Utf8);
    assert_eq!(cols[3].data_type, ArrowDataType::Date32);
    assert!(cols.iter().all(|c| !c.nullable));
}

#[test]
fn full_config_puts_struct_before_list_before_decimal() {
    let cols = get_columns(&config(true, true, true));
    assert_eq!(names(&cols), vec!["x", "other", "third", "d", "structed", "listed", "decimal"]);
    assert!(cols[5].nullable);
    assert_eq!(cols[6].data_type, ArrowDataType::Decimal128(10, 2));
    match &cols[4].data_type {
        ArrowDataType::Struct(fs) => assert_eq!(names(fs), vec!["a", "b"]),
        other => panic!("unexpected {:?}", other),
    }
    match &cols[5].data_type {
        ArrowDataType::List(e) => {
            assert_eq!(e.name, "item");
            assert_eq!(e.data_type, ArrowDataType::Int32);
            assert!(e.nullable);
        }
        other => panic!("unexpected {:?}", other),
    }
}

#[test]
fn arrow_types_map_to_delta_types() {
    assert_eq!(map_type(&ArrowDataType::Boolean), SchemaDataType::Primitive(PrimitiveType::Boolean));
    assert_eq!(map_type(&ArrowDataType::Int64), SchemaDataType::Primitive(PrimitiveType::Long));
    assert_eq!(map_type(&ArrowDataType::Int32), SchemaDataType::Primitive(PrimitiveType::Integer));
    assert_eq!(map_type(&ArrowDataType::Date32), SchemaDataType::Primitive(PrimitiveType::Date));
    assert_eq!(map_type(&ArrowDataType::Utf8), SchemaDataType::Primitive(PrimitiveType::String));
    assert_eq!(
        map_type(&ArrowDataType::Decimal128(7, 3)),
        SchemaDataType::Primitive(PrimitiveType::Decimal(7, 3))
    );
}

#[test]
fn map_key_and_value_both_take_the_entry_type() {
    let entries = ArrowField {
        name: "entries".to_string(),
        data_type: ArrowDataType::Int32,
        nullable: true,
    };
    let t = ArrowDataType::MapOf(Box::new(entries), false);
    assert!(arrow_type_is_mappable(&t));
    assert_eq!(
        map_type(&t),
        SchemaDataType::MapOf(
            Box::new(SchemaDataType::Primitive(PrimitiveType::Integer)),
            Box::new(SchemaDataType::Primitive(PrimitiveType::Integer)),
            true
        )
    );
}

#[test]
fn unsupported_arrow_types_are_reported() {
    assert!(!arrow_type_is_mappable(&ArrowDataType::Float64));
    assert!(!arrow_type_is_mappable(&ArrowDataType::Null));
    assert!(!arrow_type_is_mappable(&ArrowDataType::LargeUtf8));
    let s = ArrowDataType::Struct(vec![ArrowField {
        name: "f".to_string(),
        data_type: ArrowDataType::UInt8,
        nullable: false,
    }]);
    assert!(!arrow_type_is_mappable(&s));
}

#[test]
fn schema_fields_keep_names_and_nullability() {
    let fields = vec![sample_field(SampleColumn::Structed), sample_field(SampleColumn::Listed)];
    let out = create_schema_fields(&fields);
    assert_eq!(out.len(), 2);
    assert_eq!(out[0].name, "structed");
    assert!(!out[0].nullable);
    match &out[0].data_type {
        SchemaDataType::Struct(ds) => {
            assert_eq!(ds[0].name, "a");
            assert_eq!(ds[0].data_type, SchemaDataType::Primitive(PrimitiveType::Long));
            assert_eq!(ds[1].name, "b");
            assert_eq!(ds[1].data_type, SchemaDataType::Primitive(PrimitiveType::String));
        }
        other => panic!("unexpected {:?}", other),
    }
    assert_eq!(out[1].name, "listed");
    assert!(out[1].nullable);
    assert_eq!(
        out[1].data_type,
        SchemaDataType::Array(Box::new(SchemaDataType::Primitive(PrimitiveType::Integer)), true)
    );
}

#[test]
fn table_columns_follow_the_schema() {
    let cols = table_columns(&config(false, true, true));
    let n: Vec<&str> = cols.iter().map(|c| c.name.as_str()).collect();
    assert_eq!(n, vec!["x", "other", "third", "d", "structed", "decimal"]);
    assert_eq!(cols[5].data_type, SchemaDataType::Primitive(PrimitiveType::Decimal(10, 2)));
}

#[test]
fn record_batch_follows_schema_order() {
    let c = config(true, true, false);
    let cols = record_batch_columns(&c, Some(7));
    assert_eq!(cols.len(), 6);
    assert_eq!(cols[0], ColumnData::Int64(vec![1, 2, 3]));
    assert_eq!(cols[1], ColumnData::Boolean(vec![true, false, true]));
    assert_eq!(
        cols[2],
        ColumnData::Utf8(vec!["foo".to_string(), "baz".to_string(), "bar".to_string()])
    );
    assert_eq!(cols[3], ColumnData::Date32(vec![Some(7), Some(7), Some(7)]));
    match &cols[4] {
        ColumnData::Struct(fs, ch) => {
            assert_eq!(names(fs), vec!["a", "b"]);
            assert_eq!(ch[0], ColumnData::Int64(vec![1, 2, 3]));
        }
        other => panic!("unexpected {:?}", other),
    }
    assert_eq!(cols[5], ColumnData::ListInt32(vec![vec![1, 2, 3], vec![2], vec![3]]));
}

#[test]
fn list_with_decimal_gives_both_columns() {
    let cols = record_batch_columns(&config(true, false, true), Some(1));
    assert_eq!(cols.len(), 6);
    assert_eq!(cols[4], ColumnData::ListInt32(vec![vec![1, 2, 3], vec![2], vec![3]]));
    assert_eq!(cols[5], ColumnData::Decimal128(vec![1, 2, 3], 10, 2));
}

#[test]
fn decimal_column_has_precision_ten_scale_two() {
    let cols = record_batch_columns(&config(false, false, true), None);
    assert_eq!(cols[4], ColumnData::Decimal128(vec![1, 2, 3], 10, 2));
    assert_eq!(cols[3], ColumnData::Date32(vec![None, None, None]));
}

#[test]
fn record_batch_is_dated_2022_10_04() {
    let batch = create_record_batch(&config(false, false, false));
    assert_eq!(batch.schema.len(), 4);
    assert_eq!(batch.columns[3], ColumnData::Date32(vec![Some(19269), Some(19269), Some(19269)]));
}

#[test]
fn flags_are_on_only_for_true() {
    assert!(flag_value("true"));
    assert!(!flag_value("false"));
    assert!(!flag_value("TRUE"));
    assert!(!flag_value(""));
}

#[test]
fn table_decisions() {
    assert_eq!(table_decision(&LoadOutcome::Loaded(Some(0))), TableDecision::UseLoaded);
    assert_eq!(table_decision(&LoadOutcome::Loaded(Some(2))), TableDecision::WriterVersionMismatch);
    assert_eq!(table_decision(&LoadOutcome::Loaded(None)), TableDecision::NoProtocol);
    assert_eq!(table_decision(&LoadOutcome::NotATable), TableDecision::Create);
    assert_eq!(table_decision(&LoadOutcome::Failed), TableDecision::LoadFailed);
}

#[test]
fn write_decisions() {
    let mismatch = WriteFailure::Generic("Arrow schema does not match the table".to_string());
    assert_eq!(write_decision(&mismatch), WriteDecision::SchemaMismatch);
    let other = WriteFailure::Generic("something else".to_string());
    assert_eq!(write_decision(&other), WriteDecision::Ignore);
    assert_eq!(write_decision(&WriteFailure::Other), WriteDecision::Fail);
}

#[test]
fn simple_populate_table() {
    assert_eq!(SIMPLE_TABLE_LOCATION, "test/simple_table");
    let cols = simple_columns();
    assert_eq!(names(&cols), vec!["x", "other", "third", "d"]);
    let schema = simple_table_columns();
    let pairs: Vec<(&str, &str)> =
        schema.iter().map(|f| (f.name.as_str(), f.primitive.as_str())).collect();
    assert_eq!(
        pairs,
        vec![("x", "long"), ("other", "boolean"), ("third", "string"), ("d", "date")]
    );
    assert!(!simple_type_is_mappable(&ArrowDataType::Int32));
    assert_eq!(simple_table_name(), "my_table");
    assert_eq!(primitive_type_named("long"), Some(PrimitiveType::Long));
    assert_eq!(primitive_type_named("date"), Some(PrimitiveType::Date));
    assert_eq!(primitive_type_named("timestamp"), Some(PrimitiveType::Timestamp));
    assert_eq!(primitive_type_named("decimal"), None);
    let batch = create_simple_record_batch();
    assert_eq!(batch.columns.len(), 4);
    assert_eq!(batch.columns[3], ColumnData::Date32(vec![Some(19269), Some(19269), Some(19269)]));
    assert_eq!(simple_table_decision(&LoadOutcome::Loaded(Some(3))), TableDecision::UseLoaded);
    assert_eq!(simple_table_decision(&LoadOutcome::NotATable), TableDecision::Create);
    assert_eq!(simple_table_decision(&LoadOutcome::Failed), TableDecision::LoadFailed);
}

#[test]
fn full_batch_matches_schema_names() {
    let c = config(true, true, true);
    let schema = get_columns(&c);
    let columns = record_batch_columns(&c, Some(1));
    assert_eq!(schema.len(), columns.len());
    assert_eq!(schema[4].name, "structed");
    assert!(matches!(columns[4], ColumnData::Struct(_, _)));
    assert_eq!(schema[5].name, "listed");
    assert!(matches!(columns[5], ColumnData::ListInt32(_)));
    assert_eq!(schema[6].name, "decimal");
    assert!(matches!(columns[6], ColumnData::Decimal128(_, _, _)));
}

#[test]
fn table_creation_request() {
    let r = table_creation(&config(false, false, false));
    assert_eq!(r.table_name, "my_table");
    assert_eq!((r.min_reader_version, r.min_writer_version), (0, 0));
    assert_eq!(r.columns.len(), 4);
    assert_eq!(partition_columns(), vec!["x".to_string()]);
}

#[test]
fn sample_table_is_bindable_without_struct_and_decimal() {
    let plain = table_columns(&config(true, false, false));
    assert!(plain.iter().all(|f| type_is_mappable(&f.data_type)));
    let with_struct = table_columns(&config(false, true, false));
    assert!(!with_struct.iter().all(|f| type_is_mappable(&f.data_type)));
    let with_decimal = table_columns(&config(false, false, true));
    assert!(!with_decimal.iter().all(|f| type_is_mappable(&f.data_type)));
}
