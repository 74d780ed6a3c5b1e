use prism::catalog::{
    column_type_to_datafusion, schema_is_supported, DataType, PrismCatalogProvider, Predicate,
};
use prism::common::{ColumnType, Partition, TimeRange};
use prism::config::S3Config;
use prism::meta::{GetTableSchemaResponse, TableColumn};

fn s3() -> S3Config {
    S3Config { endpoint: None, bucket_name: "bucket".to_string() }
}

fn response() -> GetTableSchemaResponse {
    GetTableSchemaResponse {
        table_name: "http_requests".to_string(),
        columns: vec![
            TableColumn { name: "bytes".to_string(), column_type: 1 },
            TableColumn { name: "method".to_string(), column_type: 2 },
            TableColumn { name: "ts".to_string(), column_type: 3 },
        ],
    }
}

fn partitions() -> Vec<Partition> {
    vec![
        Partition {
            name: "p1".to_string(),
            size: 100,
            time_range: Some(TimeRange { start_time: 0, end_time: 10 }),
        },
        Partition {
            name: "p2".to_string(),
            size: 200,
            time_range: Some(TimeRange { start_time: 11, end_time: 20 }),
        },
    ]
}

fn render(p: &Predicate<&str>) -> String {
    match p {
        Predicate::Literal(b) => b.to_string(),
        Predicate::And(rest, f) => format!("({} AND {})", render(rest), f),
    }
}

#[test]
fn scan_maps_each_partition_to_one_file_group() {
    let catalog = PrismCatalogProvider::new(s3());
    let schema = catalog.schema("tenant").unwrap();
    let table = schema.table("http_requests", Some(response())).unwrap();
    let scan = table.scan::<&str>(&partitions(), None, vec![], None);
    assert_eq!(scan.file_groups.len(), 2);
    assert_eq!(scan.file_groups[0].location, "p1");
    assert_eq!(scan.file_groups[0].size, 100);
    assert_eq!(scan.file_groups[1].location, "p2");
    assert_eq!(scan.file_groups[1].size, 200);
    assert!(matches!(scan.predicate, Predicate::Literal(true)));
    assert_eq!(scan.object_store_url, "s3://bucket");
    assert_eq!(scan.file_schema.len(), 3);
}

#[test]
fn scan_with_no_partitions_has_no_file_groups() {
    let schema = PrismCatalogProvider::new(s3()).schema("t").unwrap();
    let table = schema.table("x", Some(response())).unwrap();
    let scan = table.scan::<&str>(&vec![], Some(vec![1]), vec![], Some(5));
    assert!(scan.file_groups.is_empty());
    assert_eq!(scan.projection, Some(vec![1]));
    assert_eq!(scan.limit, Some(5));
}

#[test]
fn filters_fold_into_one_conjunction() {
    let schema = PrismCatalogProvider::new(s3()).schema("tenant").unwrap();
    let table = schema.table("http_requests", Some(response())).unwrap();
    let scan = table.scan(&partitions(), None, vec!["f1", "f2"], None);
    assert_eq!(render(&scan.predicate), "((true AND f1) AND f2)");
    let one = table.scan(&partitions(), None, vec!["f1"], None);
    assert_eq!(render(&one.predicate), "(true AND f1)");
}

#[test]
fn schema_maps_column_types() {
    let schema = PrismCatalogProvider::new(s3()).schema("tenant").unwrap();
    let table = schema.table("http_requests", Some(response())).unwrap();
    let fields = table.schema();
    let got: Vec<(String, DataType, bool)> =
        fields.iter().map(|f| (f.name.clone(), f.data_type, f.nullable)).collect();
    assert_eq!(
        got,
        vec![
            ("bytes".to_string(), DataType::Int64, true),
            ("method".to_string(), DataType::Utf8, true),
            ("ts".to_string(), DataType::TimestampMillisecond, true),
        ]
    );
}

#[test]
fn column_types_map_to_engine_types() {
    assert_eq!(column_type_to_datafusion(ColumnType::Int16), DataType::Int16);
    assert_eq!(column_type_to_datafusion(ColumnType::Int32), DataType::Int32);
    assert_eq!(column_type_to_datafusion(ColumnType::Uint16), DataType::UInt16);
    assert_eq!(column_type_to_datafusion(ColumnType::Int64), DataType::Int64);
    assert_eq!(column_type_to_datafusion(ColumnType::Utf8), DataType::Utf8);
    assert_eq!(column_type_to_datafusion(ColumnType::Timestamp), DataType::TimestampMillisecond);
    assert_eq!(column_type_to_datafusion(ColumnType::Binary), DataType::Binary);
}

#[test]
fn unspecified_column_type_is_not_supported() {
    assert!(schema_is_supported(&response().columns));
    let bad = vec![TableColumn { name: "x".to_string(), column_type: 0 }];
    assert!(!schema_is_supported(&bad));
    let unknown = vec![TableColumn { name: "x".to_string(), column_type: 42 }];
    assert!(!schema_is_supported(&unknown));
}

#[test]
fn unreachable_service_reads_as_missing_table() {
    let schema = PrismCatalogProvider::new(s3()).schema("tenant").unwrap();
    assert!(schema.table("http_requests", None).is_none());
}

#[test]
fn requests_carry_the_tenant() {
    let catalog = PrismCatalogProvider::new(s3());
    let a = catalog.schema("t1").unwrap();
    let b = catalog.schema("t2").unwrap();
    assert_eq!(a.schema_request("logs").tenant_id, "t1");
    assert_eq!(a.schema_request("logs").table_name, "logs");
    assert_eq!(b.schema_request("logs").tenant_id, "t2");
    let ta = a.table("logs", Some(response())).unwrap();
    let tb = b.table("logs", Some(response())).unwrap();
    let ra = ta.partitions_request();
    let rb = tb.partitions_request();
    assert_eq!(ra.tenant_id, "t1");
    assert_eq!(rb.tenant_id, "t2");
    assert_eq!(ra.table_name, "logs");
    assert!(ra.time_range.is_none());
}

#[test]
fn bucket_url_of_config() {
    assert_eq!(s3().bucket_url(), "s3://bucket");
    let copy = s3().copied();
    assert_eq!(copy.bucket_name, "bucket");
    assert!(copy.endpoint.is_none());
}
