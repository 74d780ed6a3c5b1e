//! Requests and responses of the metadata service: the schema registry and
//! the partition index.

use vstd::prelude::*;

pub use crate::common::{ColumnType, Partition, TimeRange};
use crate::common::{column_type_or_default, decode_column_type, PartitionView};

verus! {

#[derive(Clone, Debug, PartialEq)]
pub struct GetTableSchemaRequest {
    pub tenant_id: String,
    pub table_name: String,
}

/// A column of a table's schema: a name and the wire number of its type.
#[derive(Clone, Debug, PartialEq)]
pub struct TableColumn {
    pub name: String,
    pub column_type: i32,
}

#[derive(Clone, Debug, PartialEq)]
pub struct GetTableSchemaResponse {
    pub table_name: String,
    pub columns: Vec<TableColumn>,
}

/// Asks for the partitions of a table; with a time range, only those whose
/// range meets it.
#[derive(Clone, Debug, PartialEq)]
pub struct GetTablePartitionsRequest {
    pub tenant_id: String,
    pub table_name: String,
    pub time_range: Option<TimeRange>,
}

#[derive(Clone, Debug, PartialEq)]
pub struct GetTablePartitionsResponse {
    pub tenant_id: String,
    pub table_name: String,
    pub partitions: Vec<Partition>,
}

/// Written by the ingestion pipeline for each partition it produces.
#[derive(Clone, Debug, PartialEq)]
pub struct RecordNewPartitionRequest {
    pub tenant_id: String,
    pub table_name: String,
    pub partition: Option<Partition>,
    pub columns: Vec<TableColumn>,
}

#[derive(Clone, Debug, PartialEq)]
pub struct RecordNewPartitionResponse {}

pub struct TableColumnView {
    pub name: Seq<char>,
    pub column_type: i32,
}

impl View for TableColumn {
    type V = TableColumnView;

    open spec fn view(&self) -> TableColumnView {
        TableColumnView { name: self.name@, column_type: self.column_type }
    }
}

/// The views of a list of columns, in order.
pub open spec fn columns_view(c: Seq<TableColumn>) -> Seq<TableColumnView> {
    c.map_values(|x: TableColumn| x@)
}

/// The views of a list of partitions, in order.
pub open spec fn partitions_view(p: Seq<Partition>) -> Seq<PartitionView> {
    p.map_values(|x: Partition| x@)
}

impl TableColumn {
    /// The type of the column; a wire number that names no type reads as
    /// `Unspecified`.
    pub fn get_type(&self) -> (r: ColumnType)
        ensures
            r == decode_column_type(self.column_type),
    {
        column_type_or_default(self.column_type)
    }
}

} // verus!
