//! The parts of ingestion that decide names and records: where a raw object
//! is read from, where its columnar copy is written, and the partition
//! record that the metadata service is told about.

use vstd::prelude::*;

use crate::catalog::{DataType, Field, FieldView, fields_view};
use crate::common::{column_type_code, Column, ColumnType, Partition, PartitionWithColumns, TimeRange};

verus! {

/// Turns raw log objects of one bucket into partitions of another.
pub struct Ingestor {
    ingest_bucket_name: String,
    query_bucket_name: String,
}

pub struct IngestorView {
    pub ingest_bucket: Seq<char>,
    pub query_bucket: Seq<char>,
}

impl View for Ingestor {
    type V = IngestorView;

    closed spec fn view(&self) -> IngestorView {
        IngestorView { ingest_bucket: self.ingest_bucket_name@, query_bucket: self.query_bucket_name@ }
    }
}

/// The column type recorded for an engine type; only integers, strings and
/// timestamps are recorded.
pub open spec fn ingest_column_type(t: DataType) -> Option<ColumnType> {
    match t {
        DataType::Int64 => Some(ColumnType::Int64),
        DataType::Utf8 => Some(ColumnType::Utf8),
        DataType::TimestampMillisecond => Some(ColumnType::Timestamp),
        _ => None,
    }
}

/// Whether every field has a type that can be recorded.
pub open spec fn fields_recordable(fields: Seq<FieldView>) -> bool {
    forall|i: int| 0 <= i < fields.len() ==> ingest_column_type(#[trigger] fields[i].data_type) is Some
}

/// The key of the columnar copy of `file` for a tenant's table.
pub open spec fn output_key(tenant: Seq<char>, table: Seq<char>, file: Seq<char>) -> Seq<char> {
    tenant + "/"@ + table + "/"@ + file + ".parquet"@
}

/// The URL of `key` in `bucket`.
pub open spec fn object_url(bucket: Seq<char>, key: Seq<char>) -> Seq<char> {
    "s3://"@ + bucket + "/"@ + key
}

/// The column type recorded for an engine type.
pub fn datafusion_to_column_type(ty: DataType) -> (r: ColumnType)
    requires
        ingest_column_type(ty) is Some,
    ensures
        ingest_column_type(ty) == Some(r),
{
    match ty {
        DataType::Int64 => ColumnType::Int64,
        DataType::Utf8 => ColumnType::Utf8,
        DataType::TimestampMillisecond => ColumnType::Timestamp,
        _ => vstd::pervasive::unreached(),
    }
}

/// Whether every field has a type that can be recorded.
pub fn fields_are_recordable(fields: &Vec<Field>) -> (r: bool)
    ensures
        r == fields_recordable(fields_view(fields@)),
{
    let mut i: usize = 0;
    while i < fields.len()
        invariant
            i <= fields@.len(),
            forall|j: int| 0 <= j < i ==> ingest_column_type(#[trigger] fields@[j].data_type) is Some,
        decreases fields@.len() - i,
    {
        let supported = match fields[i].data_type {
            DataType::Int64 | DataType::Utf8 | DataType::TimestampMillisecond => true,
            _ => false,
        };
        if !supported {
            assert(fields_view(fields@)[i as int].data_type == fields@[i as int].data_type);
            return false;
        }
        i = i + 1;
    }
    assert forall|j: int| 0 <= j < fields_view(fields@).len() implies ingest_column_type(
        #[trigger] fields_view(fields@)[j].data_type,
    ) is Some by {
        assert(fields_view(fields@)[j].data_type == fields@[j].data_type);
    }
    true
}

/// The columns to record for a written partition: one per field, in order,
/// with the field's name and the wire number of its recorded type.
pub fn gather_columns(fields: &Vec<Field>) -> (r: Vec<Column>)
    requires
        fields_recordable(fields_view(fields@)),
    ensures
        r@.len() == fields@.len(),
        forall|i: int|
            0 <= i < fields@.len() ==> (#[trigger] r@[i]).name@ == fields@[i].name@ && r@[i].column_type
                == column_type_code(ingest_column_type(fields@[i].data_type)->Some_0),
{
    let mut columns: Vec<Column> = Vec::new();
    let mut i: usize = 0;
    while i < fields.len()
        invariant
            fields_recordable(fields_view(fields@)),
            i <= fields@.len(),
            columns@.len() == i,
            forall|j: int|
                0 <= j < i ==> (#[trigger] columns@[j]).name@ == fields@[j].name@ && columns@[j].column_type
                    == column_type_code(ingest_column_type(fields@[j].data_type)->Some_0),
        decreases fields@.len() - i,
    {
        assert(fields_view(fields@)[i as int].data_type == fields@[i as int].data_type);
        let ty = datafusion_to_column_type(fields[i].data_type);
        columns.push(Column { name: fields[i].name.clone(), column_type: ty.to_i32() });
        i = i + 1;
    }
    columns
}

impl Ingestor {
    pub fn new(ingest_bucket_name: &str, query_bucket_name: &str) -> (r: Self)
        ensures
            r@ == (IngestorView { ingest_bucket: ingest_bucket_name@, query_bucket: query_bucket_name@ }),
    {
        Ingestor {
            ingest_bucket_name: ingest_bucket_name.to_owned(),
            query_bucket_name: query_bucket_name.to_owned(),
        }
    }

    /// The URL of a raw object in the ingest bucket.
    pub fn source_url(&self, location: &str) -> (r: String)
        ensures
            r@ == object_url(self@.ingest_bucket, location@),
    {
        let r = "s3://".to_owned().concat(self.ingest_bucket_name.as_str()).concat("/").concat(location);
        r
    }

    /// The key, in the query bucket, of the columnar copy of the raw object
    /// named `file`.
    pub fn output_path(&self, tenant_id: &str, table: &str, file: &str) -> (r: String)
        ensures
            r@ == output_key(tenant_id@, table@, file@),
    {
        tenant_id.to_owned().concat("/").concat(table).concat("/").concat(file).concat(".parquet")
    }

    /// The URL of a key in the query bucket.
    pub fn output_url(&self, output_path: &str) -> (r: String)
        ensures
            r@ == object_url(self@.query_bucket, output_path@),
    {
        "s3://".to_owned().concat(self.query_bucket_name.as_str()).concat("/").concat(output_path)
    }

    /// The record of a written partition: its key, its size, the span of its
    /// timestamps and its columns.
    pub fn partition_record(
        &self,
        output_path: String,
        size: i64,
        min_ts: i64,
        max_ts: i64,
        columns: Vec<Column>,
    ) -> (r: PartitionWithColumns)
        ensures
            r.partition matches Some(p) && p.name@ == output_path@ && p.size == size && p.time_range
                == Some(TimeRange { start_time: min_ts, end_time: max_ts }),
            r.columns@ == columns@,
    {
        PartitionWithColumns {
            partition: Some(
                Partition {
                    name: output_path,
                    size,
                    time_range: Some(TimeRange { start_time: min_ts, end_time: max_ts }),
                },
            ),
            columns,
        }
    }
}

} // verus!
