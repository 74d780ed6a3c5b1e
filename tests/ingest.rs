use prism::catalog::{DataType, Field};
use prism::common::TimeRange;
use prism::ingest::{datafusion_to_column_type, fields_are_recordable, gather_columns, Ingestor};
use prism::common::ColumnType;

fn field(name: &str, data_type: DataType) -> Field {
    Field { name: name.to_string(), data_type, nullable: true }
}

#[test]
fn paths_of_an_ingested_object() {
    let ingestor = Ingestor::new("ingest", "query");
    assert_eq!(ingestor.source_url("demo.log"), "s3://ingest/demo.log");
    let out = ingestor.output_path("tenant", "web_requests", "demo.log");
    assert_eq!(out, "tenant/web_requests/demo.log.parquet");
    assert_eq!(ingestor.output_url(&out), "s3://query/tenant/web_requests/demo.log.parquet");
}

#[test]
fn partition_record_holds_range_and_columns() {
    let ingestor = Ingestor::new("ingest", "query");
    let fields = vec![field("timestamp", DataType::TimestampMillisecond), field("bytes", DataType::Int64)];
    let columns = gather_columns(&fields);
    let record = ingestor.partition_record(
        "tenant/web_requests/demo.log.parquet".to_string(),
        1234,
        1698000992225,
        1698000995523,
        columns,
    );
    let p = record.partition.unwrap();
    assert_eq!(p.name, "tenant/web_requests/demo.log.parquet");
    assert_eq!(p.size, 1234);
    assert_eq!(p.time_range, Some(TimeRange { start_time: 1698000992225, end_time: 1698000995523 }));
    assert_eq!(record.columns.len(), 2);
    assert_eq!(record.columns[0].name, "timestamp");
    assert_eq!(record.columns[0].column_type, 3);
    assert_eq!(record.columns[1].column_type, 1);
}

#[test]
fn only_some_types_are_recorded() {
    assert_eq!(datafusion_to_column_type(DataType::Utf8), ColumnType::Utf8);
    assert!(fields_are_recordable(&vec![field("a", DataType::Utf8)]));
    assert!(!fields_are_recordable(&vec![field("a", DataType::Binary)]));
    assert!(fields_are_recordable(&vec![]));
}
