use tsdb_core::codec::Encoding;
use tsdb_core::schema::{
    ColumnType, DatabaseSchema, PhysicalType, TableColumn, TskvTableSchema,
};
use tsdb_core::duration::{DurationUnit, Precision};
use tsdb_core::ValueType;

fn field(id: u64, name: &str, v: ValueType) -> TableColumn {
    TableColumn::new(id, name.to_string(), ColumnType::Field(v), Encoding::Default)
}

#[test]
fn field_num_counts_only_field_columns() {
    let mut schema = TskvTableSchema::new("db".to_string(), "t".to_string(), Vec::new());
    schema.add_column(TableColumn::new_time_column(1));
    schema.add_column(TableColumn::new_tag_column(2, "host".to_string()));
    schema.add_column(field(3, "temp", ValueType::Float));
    schema.add_column(field(4, "hits", ValueType::Integer));
    assert_eq!(schema.field_num(), 2);
    assert_eq!(schema.columns().len(), 4);
    assert_eq!(schema.fields().len(), 2);
    assert_eq!(schema.fields()[0].name, "temp");
}

#[test]
fn adding_an_existing_name_is_a_no_op() {
    let mut schema = TskvTableSchema::new("db".to_string(), "t".to_string(), Vec::new());
    schema.add_column(field(1, "temp", ValueType::Float));
    schema.add_column(field(9, "temp", ValueType::Integer));
    assert_eq!(schema.columns().len(), 1);
    assert_eq!(schema.column_index("temp"), Some(0));
    assert_eq!(schema.column("temp").unwrap().id, 1);
    assert_eq!(schema.field_num(), 1);
}

#[test]
fn column_lookups_agree_with_positions() {
    let mut schema = TskvTableSchema::new("db".to_string(), "t".to_string(), Vec::new());
    schema.add_column(TableColumn::new_time_column(1));
    schema.add_column(field(2, "temp", ValueType::Float));
    assert_eq!(schema.column_index("time"), Some(0));
    assert_eq!(schema.column_index("temp"), Some(1));
    assert_eq!(schema.column_index("none"), None);
    assert!(schema.column("none").is_none());
    assert_eq!(schema.column_by_index(1).unwrap().name, "temp");
    assert!(schema.column_by_index(2).is_none());
}

#[test]
fn fields_id_positions_ascend_with_column_id() {
    let mut schema = TskvTableSchema::new("db".to_string(), "t".to_string(), Vec::new());
    schema.add_column(TableColumn::new_time_column(1));
    schema.add_column(field(9, "c", ValueType::Float));
    schema.add_column(field(3, "a", ValueType::Integer));
    schema.add_column(TableColumn::new_tag_column(2, "host".to_string()));
    schema.add_column(field(5, "b", ValueType::String));
    let map = schema.fields_id();
    assert_eq!(map.len(), 3);
    assert_eq!(map[&3], 0);
    assert_eq!(map[&5], 1);
    assert_eq!(map[&9], 2);
}

#[test]
fn size_is_the_documented_heuristic() {
    let mut schema = TskvTableSchema::new("db".to_string(), "t".to_string(), Vec::new());
    assert_eq!(schema.size(), 8);
    schema.add_column(TableColumn::new_time_column(1));
    schema.add_column(field(2, "temp", ValueType::Float));
    assert_eq!(schema.size(), 24);
}

#[test]
fn default_schema_is_empty_in_public() {
    let schema = TskvTableSchema::default();
    assert_eq!(schema.db(), "public");
    assert_eq!(schema.name(), "");
    assert_eq!(schema.schema_id(), 0);
    assert_eq!(schema.columns().len(), 0);
}

#[test]
fn physical_round_trip_keeps_field_types() {
    for v in [
        ValueType::Float,
        ValueType::Integer,
        ValueType::Unsigned,
        ValueType::Boolean,
        ValueType::String,
    ] {
        let physical = ColumnType::Field(v).to_physical();
        assert_eq!(ColumnType::try_from_physical(physical), Ok(ColumnType::Field(v)));
    }
}

#[test]
fn physical_reverse_never_yields_tag_or_time() {
    let time_physical = ColumnType::Time.to_physical();
    assert!(ColumnType::try_from_physical(time_physical).is_err());
    let tag_physical = ColumnType::Tag.to_physical();
    assert_eq!(
        ColumnType::try_from_physical(tag_physical),
        Ok(ColumnType::Field(ValueType::String))
    );
    let null_physical = ColumnType::Field(ValueType::Unknown).to_physical();
    assert!(ColumnType::try_from_physical(null_physical).is_err());
}

#[test]
fn column_type_texts_and_codes() {
    assert_eq!(ColumnType::Tag.as_str(), "tag");
    assert_eq!(ColumnType::Time.as_str(), "time");
    assert_eq!(ColumnType::Field(ValueType::Integer).as_str(), "i64");
    assert_eq!(ColumnType::Field(ValueType::Float).field_type(), 0);
    assert_eq!(ColumnType::Field(ValueType::String).field_type(), 4);
    assert_eq!(ColumnType::Tag.field_type(), 0);
    assert_eq!(ColumnType::from_i32(1), ColumnType::Field(ValueType::Integer));
    assert_eq!(ColumnType::from_i32(5), ColumnType::Time);
    assert_eq!(ColumnType::from_i32(77), ColumnType::Field(ValueType::Unknown));
    assert!(ColumnType::Tag.is_tag());
    assert!(ColumnType::Time.is_time());
    assert!(ColumnType::Field(ValueType::Float).is_field());
    assert!(!ColumnType::Tag.is_field());
}

#[test]
fn time_column_is_the_only_non_nullable() {
    assert!(!TableColumn::new_time_column(1).nullable());
    assert!(TableColumn::new_tag_column(2, "host".to_string()).nullable());
    assert!(field(3, "temp", ValueType::Float).nullable());
    assert_eq!(TableColumn::new_time_column(1).name, "time");
}

#[test]
fn database_defaults_are_one_year_one_shard() {
    let db = DatabaseSchema::new("mydb");
    assert_eq!(db.name, "mydb");
    assert_eq!(db.config.ttl.time_num, 365);
    assert_eq!(db.config.ttl.unit, DurationUnit::Day);
    assert_eq!(db.config.shard_num, 1);
    assert_eq!(db.config.vnode_duration.time_num, 365);
    assert_eq!(db.config.replica, 1);
    assert_eq!(db.config.precision, Precision::NS);
}

#[test]
fn physical_type_texts() {
    assert_eq!(PhysicalType::Utf8.as_str(), "Utf8");
    assert_eq!(PhysicalType::TimestampNanosecond.as_str(), "Timestamp(Nanosecond)");
    assert_eq!(PhysicalType::Null.as_str(), "Null");
}
