use tsdb_core::arrow::is_time_column;
use tsdb_core::codec::Encoding;
use tsdb_core::schema::{ColumnType, TableColumn, TskvTableSchema};
use tsdb_core::ValueType;

#[test]
fn arrow_field_carries_id_and_tag_metadata() {
    let column = TableColumn::new(
        42,
        "host".to_string(),
        ColumnType::Tag,
        Encoding::Default,
    );
    let field = column.to_arrow_field();
    assert_eq!(field.name(), "host");
    assert_eq!(field.data_type(), &arrow_schema::DataType::Utf8);
    assert!(field.is_nullable());
    let metadata = field.metadata();
    assert_eq!(metadata.get("_field_id").map(String::as_str), Some("42"));
    assert_eq!(metadata.get("_tag").map(String::as_str), Some("true"));
}

#[test]
fn time_column_maps_to_non_nullable_nanosecond_timestamp() {
    let field = TableColumn::new_time_column(1).to_arrow_field();
    assert_eq!(field.name(), "time");
    assert_eq!(
        field.data_type(),
        &arrow_schema::DataType::Timestamp(arrow_schema::TimeUnit::Nanosecond, None)
    );
    assert!(!field.is_nullable());
    assert_eq!(field.metadata().get("_tag").map(String::as_str), Some("false"));
}

#[test]
fn arrow_schema_has_one_field_per_column_in_order() {
    let mut schema = TskvTableSchema::new("db".to_string(), "t".to_string(), Vec::new());
    schema.add_column(TableColumn::new_time_column(1));
    schema.add_column(TableColumn::new_tag_column(2, "host".to_string()));
    schema.add_column(TableColumn::new(
        3,
        "value".to_string(),
        ColumnType::Field(ValueType::Unsigned),
        Encoding::Default,
    ));
    let arrow = schema.to_arrow_schema();
    let fields = arrow.fields();
    assert_eq!(fields.len(), 3);
    assert_eq!(fields[0].name(), "time");
    assert_eq!(fields[1].name(), "host");
    assert_eq!(fields[2].name(), "value");
    assert_eq!(fields[2].data_type(), &arrow_schema::DataType::UInt64);
}

#[test]
fn time_column_is_recognized_by_name() {
    let time_field = TableColumn::new_time_column(1).to_arrow_field();
    assert!(is_time_column(&time_field));
    let tag_field = TableColumn::new_tag_column(2, "host".to_string()).to_arrow_field();
    assert!(!is_time_column(&tag_field));
}
