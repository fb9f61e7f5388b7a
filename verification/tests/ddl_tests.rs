use tsdb_core::ast::ObjectType;
use tsdb_core::codec::Encoding;
use tsdb_core::ddl::{
    describe_database_output, describe_tskv_table_output, single_column_output,
    DDLDefinitionTaskFactory, DDLTask,
};
use tsdb_core::execution::Output;
use tsdb_core::external::{ExternalTableSchema, PhysicalField};
use tsdb_core::plan::{
    CreateDatabasePlan, CreateExternalTablePlan, CreateTablePlan, DDLPlan, DescribeDatabasePlan,
    DescribeTablePlan, DropPlan, ShowTablesPlan,
};
use tsdb_core::schema::{
    ColumnType, DatabaseSchema, DatabaseOptions, PhysicalType, TableColumn, TskvTableSchema,
};
use tsdb_core::text::u64_to_dec_string;
use tsdb_core::ValueType;

fn task_of(plan: DDLPlan) -> DDLTask {
    DDLDefinitionTaskFactory { plan }.create_task()
}

#[test]
fn every_plan_variant_maps_to_its_own_task() {
    let external_schema = ExternalTableSchema {
        db: "db".to_string(),
        name: "ext".to_string(),
        file_compression_type: "".to_string(),
        file_type: "csv".to_string(),
        location: "/x".to_string(),
        target_partitions: 1,
        table_partition_cols: Vec::new(),
        has_header: false,
        delimiter: b',',
        schema: Vec::new(),
    };
    let t = task_of(DDLPlan::CreateExternalTable(CreateExternalTablePlan {
        if_not_exists: false,
        schema: external_schema,
    }));
    assert!(matches!(t, DDLTask::CreateExternalTable(_)));

    let t = task_of(DDLPlan::Drop(DropPlan {
        object_name: "t".to_string(),
        if_exist: false,
        obj_type: ObjectType::Table,
    }));
    assert!(matches!(t, DDLTask::Drop(_)));

    let t = task_of(DDLPlan::CreateTable(CreateTablePlan {
        name: "t".to_string(),
        if_not_exists: false,
        schema: Vec::new(),
    }));
    assert!(matches!(t, DDLTask::CreateTable(_)));

    let t = task_of(DDLPlan::CreateDatabase(CreateDatabasePlan {
        name: "d".to_string(),
        if_not_exists: false,
        options: DatabaseOptions::default(),
    }));
    assert!(matches!(t, DDLTask::CreateDatabase(_)));

    let t = task_of(DDLPlan::DescribeDatabase(DescribeDatabasePlan {
        database_name: "d".to_string(),
    }));
    assert!(matches!(t, DDLTask::DescribeDatabase(_)));

    let t = task_of(DDLPlan::DescribeTable(DescribeTablePlan { table_name: "t".to_string() }));
    assert!(matches!(t, DDLTask::DescribeTable(_)));

    let t = task_of(DDLPlan::ShowTables(ShowTablesPlan { database_name: None }));
    assert!(matches!(t, DDLTask::ShowTables(_)));

    let t = task_of(DDLPlan::ShowDatabases());
    assert!(matches!(t, DDLTask::ShowDatabases(_)));
}

#[test]
fn describe_database_prints_the_options_row() {
    let output = describe_database_output(&DatabaseSchema::new("d"));
    match output {
        Output::Table(t) => {
            assert_eq!(
                t.column_names,
                vec!["TTL", "SHARD", "VNODE_DURATION", "REPLICA", "PRECISION"]
            );
            assert_eq!(
                t.rows,
                vec![vec![
                    "365 Days".to_string(),
                    "1".to_string(),
                    "365 Days".to_string(),
                    "1".to_string(),
                    "NS".to_string(),
                ]]
            );
        }
        other => panic!("expected a table, got {other:?}"),
    }
}

#[test]
fn describe_table_prints_one_row_per_column() {
    let mut schema = TskvTableSchema::new("db".to_string(), "t".to_string(), Vec::new());
    schema.add_column(TableColumn::new_time_column(1));
    schema.add_column(TableColumn::new_tag_column(2, "host".to_string()));
    schema.add_column(TableColumn::new(
        3,
        "temp".to_string(),
        ColumnType::Field(ValueType::Float),
        Encoding::Gorilla,
    ));
    match describe_tskv_table_output(&schema) {
        Output::Table(t) => {
            assert_eq!(t.column_names, vec!["FIELDNAME", "TYPE", "ISTAG", "COMPRESSION"]);
            assert_eq!(
                t.rows,
                vec![
                    vec!["time".to_string(), "time".to_string(), "false".to_string(),
                        "DEFAULT".to_string()],
                    vec!["host".to_string(), "tag".to_string(), "true".to_string(),
                        "DEFAULT".to_string()],
                    vec!["temp".to_string(), "f64".to_string(), "false".to_string(),
                        "GORILLA".to_string()],
                ]
            );
        }
        other => panic!("expected a table, got {other:?}"),
    }
}

#[test]
fn single_column_output_keeps_order() {
    let values = vec!["a".to_string(), "b".to_string()];
    match single_column_output("Name", values) {
        Output::Table(t) => {
            assert_eq!(t.column_names, vec!["Name"]);
            assert_eq!(t.rows, vec![vec!["a".to_string()], vec!["b".to_string()]]);
        }
        other => panic!("expected a table, got {other:?}"),
    }
}

#[test]
fn decimal_text_is_exact() {
    assert_eq!(u64_to_dec_string(0), "0");
    assert_eq!(u64_to_dec_string(7), "7");
    assert_eq!(u64_to_dec_string(10), "10");
    assert_eq!(u64_to_dec_string(305), "305");
    assert_eq!(u64_to_dec_string(u64::MAX), "18446744073709551615");
}

#[test]
fn physical_fields_survive_describe() {
    let ext = ExternalTableSchema {
        db: "db".to_string(),
        name: "ext".to_string(),
        file_compression_type: "".to_string(),
        file_type: "csv".to_string(),
        location: "/x".to_string(),
        target_partitions: 1,
        table_partition_cols: Vec::new(),
        has_header: false,
        delimiter: b',',
        schema: vec![PhysicalField {
            name: "v".to_string(),
            data_type: PhysicalType::Int64,
            nullable: false,
        }],
    };
    match tsdb_core::ddl::describe_external_table_output(&ext) {
        Output::Table(t) => {
            assert_eq!(t.column_names, vec!["FIELDNAME", "TYPE", "NULLABLE"]);
            assert_eq!(
                t.rows,
                vec![vec!["v".to_string(), "Int64".to_string(), "false".to_string()]]
            );
        }
        other => panic!("expected a table, got {other:?}"),
    }
}
