use deltatable::table_function::{
    bind_columns, bind_problem, cell_problem, first_unmappable_field, has_nul_byte, has_nul_char,
    parameter_count_is_valid, populate_column, read_delta_bind, BindOutcome, BindProblem,
    CellProblem, CellValue, ChunkScan, DeltaFunction, MyInitDataStruct, ParquetField,
    TableLookup,
};
use deltatable::types::{DuckLogicalType, LogicalTypeId, PrimitiveType, SchemaDataType, StructField};

fn field(name: &str, t: SchemaDataType) -> StructField {
    StructField { name: name.to_string(), data_type: t, nullable: true }
}

#[test]
fn takes_one_varchar_parameter() {
    assert_eq!(DeltaFunction::parameters(), Some(vec![LogicalTypeId::Varchar]));
    assert!(parameter_count_is_valid(1));
    assert!(!parameter_count_is_valid(0));
    assert!(!parameter_count_is_valid(2));
}

#[test]
fn init_marks_the_scan_done() {
    let mut d = MyInitDataStruct { done: false, file_idx: 9, spent: 40 };
    DeltaFunction::init(&mut d);
    assert_eq!(d, MyInitDataStruct { done: true, file_idx: 0, spent: 0 });
}

#[test]
fn bind_declares_mapped_columns() {
    let fields = vec![
        field("id", SchemaDataType::Primitive(PrimitiveType::Long)),
        field("name", SchemaDataType::Primitive(PrimitiveType::String)),
        field(
            "tags",
            SchemaDataType::Array(Box::new(SchemaDataType::Primitive(PrimitiveType::String)), true),
        ),
    ];
    let cols = bind_columns(&fields);
    assert_eq!(cols.len(), 3);
    assert_eq!(cols[0].name, "id");
    assert_eq!(cols[0].logical_type, DuckLogicalType::Id(LogicalTypeId::Bigint));
    assert_eq!(cols[1].logical_type, DuckLogicalType::Id(LogicalTypeId::Varchar));
    assert_eq!(
        cols[2].logical_type,
        DuckLogicalType::List(Box::new(DuckLogicalType::Id(LogicalTypeId::Varchar)))
    );
}

#[test]
fn bind_reports_open_errors() {
    let out = read_delta_bind("t".to_string(), TableLookup::OpenFailed("no such table".to_string()));
    match out {
        BindOutcome::Error(e) => assert_eq!(e, "no such table"),
        _ => panic!("expected an error"),
    }
}

#[test]
fn bind_keeps_the_location() {
    let fields = vec![field("d", SchemaDataType::Primitive(PrimitiveType::Date))];
    let out = read_delta_bind("tables/a".to_string(), TableLookup::Opened(Some(fields)));
    match out {
        BindOutcome::Bound(cols, data) => {
            assert_eq!(data.filename, "tables/a");
            assert_eq!(cols[0].logical_type, DuckLogicalType::Id(LogicalTypeId::Date));
        }
        _ => panic!("expected columns"),
    }
}

#[test]
fn bind_problems() {
    assert_eq!(bind_problem("t", &TableLookup::Opened(None)), Some(BindProblem::NoSchema));
    assert_eq!(bind_problem("t", &TableLookup::OpenFailed("e".to_string())), None);
    let bad = vec![
        field("ok", SchemaDataType::Primitive(PrimitiveType::Long)),
        field("dec", SchemaDataType::Primitive(PrimitiveType::Decimal(10, 2))),
    ];
    assert_eq!(first_unmappable_field(&bad), Some(1));
    assert_eq!(
        bind_problem("t", &TableLookup::Opened(Some(bad))),
        Some(BindProblem::UnmappableField(1))
    );
    let good = vec![field("ok", SchemaDataType::Primitive(PrimitiveType::Long))];
    assert_eq!(first_unmappable_field(&good), None);
    assert_eq!(
        bind_problem("a\0b", &TableLookup::Opened(Some(good))),
        Some(BindProblem::NulInFilename)
    );
    assert!(has_nul_char("a\0"));
    assert!(!has_nul_char("abc"));
}

#[test]
fn cells_keep_their_values() {
    let w = populate_column(&ParquetField::Int(-5), false, 3, 1);
    assert_eq!((w.row, w.column), (3, 1));
    assert_eq!(w.value, CellValue::I32(-5));
    assert_eq!(populate_column(&ParquetField::Date(19000), false, 0, 0).value, CellValue::I32(19000));
    assert_eq!(
        populate_column(&ParquetField::TimestampMicros(42), false, 0, 0).value,
        CellValue::I64(42)
    );
    assert_eq!(
        populate_column(&ParquetField::Double(1.5f64.to_bits()), false, 0, 0).value,
        CellValue::F64(1.5f64.to_bits())
    );
    assert_eq!(populate_column(&ParquetField::ULong(7), false, 0, 0).value, CellValue::U64(7));
    assert_eq!(populate_column(&ParquetField::Bool(true), false, 0, 0).value, CellValue::Bool(true));
}

#[test]
fn strings_become_varchar_bytes() {
    let w = populate_column(&ParquetField::Str("é!".to_string()), true, 1, 2);
    assert_eq!(w.value, CellValue::Varchar("é!".as_bytes().to_vec()));
    let w = populate_column(&ParquetField::Bytes(vec![1, 2, 255]), true, 1, 2);
    assert_eq!(w.value, CellValue::Varchar(vec![1, 2, 255]));
}

#[test]
fn cell_problems() {
    assert_eq!(cell_problem(&ParquetField::Null, true), Some(CellProblem::Unsupported));
    assert_eq!(cell_problem(&ParquetField::Decimal, true), Some(CellProblem::Unsupported));
    assert_eq!(cell_problem(&ParquetField::Group, true), Some(CellProblem::Unsupported));
    assert_eq!(
        cell_problem(&ParquetField::Str("a\0".to_string()), true),
        Some(CellProblem::NulByte)
    );
    assert_eq!(
        cell_problem(&ParquetField::Bytes(vec![1]), false),
        Some(CellProblem::NotVarchar)
    );
    assert_eq!(cell_problem(&ParquetField::Str("a".to_string()), true), None);
    assert_eq!(cell_problem(&ParquetField::Long(1), false), None);
    assert!(has_nul_byte(&[1, 0]));
    assert!(!has_nul_byte(&[]));
}

#[test]
fn initialised_scan_is_empty() {
    let mut d = MyInitDataStruct { done: false, file_idx: 0, spent: 0 };
    DeltaFunction::init(&mut d);
    let mut scan = ChunkScan::start(d);
    assert!(!scan.enter_file(0));
    let (init, len) = scan.finish();
    assert_eq!(len, 0);
    assert_eq!(init, MyInitDataStruct { done: true, file_idx: 0, spent: 0 });
}

#[test]
fn scan_counts_rows_and_adds_them_to_spent() {
    let mut scan = ChunkScan::start(MyInitDataStruct { done: false, file_idx: 0, spent: 10 });
    assert!(scan.enter_file(0));
    assert!(scan.row_fits(4));
    scan.row_written(4);
    assert!(scan.row_fits(4));
    scan.row_written(4);
    assert!(scan.enter_file(1));
    assert!(scan.row_fits(4));
    scan.row_written(4);
    assert!(!scan.row_fits(4));
    let (init, len) = scan.finish();
    assert_eq!(len, 3);
    assert_eq!(init, MyInitDataStruct { done: false, file_idx: 1, spent: 13 });
}
