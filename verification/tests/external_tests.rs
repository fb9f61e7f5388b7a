use tsdb_core::external::{
    CompressionKind, ExternalTableSchema, FileFormatOptions, PhysicalField, TableSchema,
};
use tsdb_core::schema::{PhysicalType, TskvTableSchema};

fn schema_with(file_type: &str, compression: &str) -> ExternalTableSchema {
    ExternalTableSchema {
        db: "db".to_string(),
        name: "ext".to_string(),
        file_compression_type: compression.to_string(),
        file_type: file_type.to_string(),
        location: "/data/ext".to_string(),
        target_partitions: 4,
        table_partition_cols: vec!["region".to_string()],
        has_header: true,
        delimiter: b',',
        schema: vec![PhysicalField {
            name: "value".to_string(),
            data_type: PhysicalType::Float64,
            nullable: true,
        }],
    }
}

#[test]
fn csv_with_gzip_derives_options() {
    let opts = schema_with("csv", "gzip").table_options().unwrap();
    assert_eq!(
        opts.format,
        FileFormatOptions::Csv {
            has_header: true,
            delimiter: b',',
            compression: CompressionKind::Gzip,
        }
    );
    assert_eq!(opts.file_extension, ".csv.gz");
    assert_eq!(opts.table_partition_cols, vec!["region".to_string()]);
    assert_eq!(opts.target_partitions, 4);
    assert!(!opts.collect_stat);
}

#[test]
fn file_type_tag_is_case_insensitive() {
    let opts = schema_with("CSV", "GZ").table_options().unwrap();
    assert_eq!(opts.file_extension, ".csv.gz");
}

#[test]
fn empty_compression_means_uncompressed() {
    let opts = schema_with("parquet", "").table_options().unwrap();
    assert_eq!(opts.format, FileFormatOptions::Parquet);
    assert_eq!(opts.file_extension, ".parquet");
}

#[test]
fn json_with_zstd_gets_the_suffix() {
    let opts = schema_with("json", "zstd").table_options().unwrap();
    assert_eq!(opts.format, FileFormatOptions::Json { compression: CompressionKind::Zstd });
    assert_eq!(opts.file_extension, ".json.zst");
}

#[test]
fn avro_is_supported_uncompressed() {
    let opts = schema_with("avro", "UNCOMPRESSED").table_options().unwrap();
    assert_eq!(opts.format, FileFormatOptions::Avro);
    assert_eq!(opts.file_extension, ".avro");
}

#[test]
fn unknown_file_type_is_rejected() {
    assert!(schema_with("orc", "").table_options().is_err());
}

#[test]
fn unknown_compression_is_rejected() {
    assert!(schema_with("csv", "lz77").table_options().is_err());
}

#[test]
fn parquet_with_compression_is_rejected() {
    assert!(schema_with("parquet", "gzip").table_options().is_err());
    assert!(schema_with("avro", "bz2").table_options().is_err());
}

#[test]
fn table_schema_exposes_name_and_db() {
    let external = TableSchema::ExternalTableSchema(schema_with("csv", ""));
    assert_eq!(external.name(), "ext");
    assert_eq!(external.db(), "db");
    let tskv = TableSchema::TsKvTableSchema(TskvTableSchema::new(
        "tsdb".to_string(),
        "series".to_string(),
        Vec::new(),
    ));
    assert_eq!(tskv.name(), "series");
    assert_eq!(tskv.db(), "tsdb");
}
