use deltatable::types::{
    map_primitive_type, map_type, primitive_type_is_mappable, type_is_mappable, DuckLogicalType,
    LogicalTypeId, PrimitiveType, SchemaDataType, StructField,
};

#[test]
fn primitive_types_map_to_duckdb_ids() {
    let cases = [
        (PrimitiveType::String, LogicalTypeId::Varchar),
        (PrimitiveType::Long, LogicalTypeId::Bigint),
        (PrimitiveType::Integer, LogicalTypeId::Integer),
        (PrimitiveType::Short, LogicalTypeId::Smallint),
        (PrimitiveType::Byte, LogicalTypeId::Tinyint),
        (PrimitiveType::Float, LogicalTypeId::Float),
        (PrimitiveType::Double, LogicalTypeId::Double),
        (PrimitiveType::Boolean, LogicalTypeId::Boolean),
        (PrimitiveType::Binary, LogicalTypeId::Varchar),
        (PrimitiveType::Date, LogicalTypeId::Date),
        (PrimitiveType::Timestamp, LogicalTypeId::Timestamp),
    ];
    for (p, id) in cases.iter() {
        assert!(primitive_type_is_mappable(p));
        assert_eq!(map_primitive_type(p), *id);
    }
}

#[test]
fn decimal_and_timestamp_ntz_are_not_mappable() {
    assert!(!primitive_type_is_mappable(&PrimitiveType::TimestampNtz));
    assert!(!primitive_type_is_mappable(&PrimitiveType::Decimal(10, 2)));
    assert!(!type_is_mappable(&SchemaDataType::Primitive(PrimitiveType::Decimal(5, 1))));
}

#[test]
fn structs_are_not_mappable() {
    let s = SchemaDataType::Struct(vec![StructField {
        name: "a".to_string(),
        data_type: SchemaDataType::Primitive(PrimitiveType::Long),
        nullable: false,
    }]);
    assert!(!type_is_mappable(&s));
    let arr = SchemaDataType::Array(Box::new(s), true);
    assert!(!type_is_mappable(&arr));
}

#[test]
fn arrays_become_lists() {
    let t = SchemaDataType::Array(Box::new(SchemaDataType::Primitive(PrimitiveType::Integer)), true);
    assert!(type_is_mappable(&t));
    assert_eq!(
        map_type(&t),
        DuckLogicalType::List(Box::new(DuckLogicalType::Id(LogicalTypeId::Integer)))
    );
}

#[test]
fn maps_become_maps_of_mapped_key_and_value() {
    let t = SchemaDataType::MapOf(
        Box::new(SchemaDataType::Primitive(PrimitiveType::String)),
        Box::new(SchemaDataType::Array(
            Box::new(SchemaDataType::Primitive(PrimitiveType::Double)),
            false,
        )),
        true,
    );
    assert!(type_is_mappable(&t));
    assert_eq!(
        map_type(&t),
        DuckLogicalType::MapOf(
            Box::new(DuckLogicalType::Id(LogicalTypeId::Varchar)),
            Box::new(DuckLogicalType::List(Box::new(DuckLogicalType::Id(
                LogicalTypeId::Double
            )))),
        )
    );
}

#[test]
fn map_with_unmappable_value_is_not_mappable() {
    let t = SchemaDataType::MapOf(
        Box::new(SchemaDataType::Primitive(PrimitiveType::String)),
        Box::new(SchemaDataType::Primitive(PrimitiveType::TimestampNtz)),
        true,
    );
    assert!(!type_is_mappable(&t));
}
