//! Records shared by the ingestion pipeline, the metadata service and the
//! query engine: partitions, time ranges and column types.

use vstd::prelude::*;

verus! {

/// The type of a column as stored in the schema registry.
///
/// On the wire each variant is a small integer that never changes meaning:
/// see [`ColumnType::to_i32`].
#[derive(Clone, Copy, Debug, PartialEq, Eq, Structural, Hash, PartialOrd, Ord)]
pub enum ColumnType {
    Unspecified,
    Int64,
    Utf8,
    Timestamp,
    Int16,
    Int32,
    Uint16,
    Binary,
}

/// The wire number of each column type.
pub open spec fn column_type_code(t: ColumnType) -> i32 {
    match t {
        ColumnType::Unspecified => 0,
        ColumnType::Int64 => 1,
        ColumnType::Utf8 => 2,
        ColumnType::Timestamp => 3,
        ColumnType::Int16 => 4,
        ColumnType::Int32 => 5,
        ColumnType::Uint16 => 6,
        ColumnType::Binary => 7,
    }
}

/// The name that the schema definition gives each column type.
pub open spec fn column_type_name(t: ColumnType) -> Seq<char> {
    match t {
        ColumnType::Unspecified => "COLUMN_TYPE_UNSPECIFIED"@,
        ColumnType::Int64 => "COLUMN_TYPE_INT64"@,
        ColumnType::Utf8 => "COLUMN_TYPE_UTF8"@,
        ColumnType::Timestamp => "COLUMN_TYPE_TIMESTAMP"@,
        ColumnType::Int16 => "COLUMN_TYPE_INT16"@,
        ColumnType::Int32 => "COLUMN_TYPE_INT32"@,
        ColumnType::Uint16 => "COLUMN_TYPE_UINT16"@,
        ColumnType::Binary => "COLUMN_TYPE_BINARY"@,
    }
}

impl ColumnType {
    /// The wire number of this column type.
    pub fn to_i32(&self) -> (r: i32)
        ensures
            r == column_type_code(*self),
    {
        match self {
            ColumnType::Unspecified => 0,
            ColumnType::Int64 => 1,
            ColumnType::Utf8 => 2,
            ColumnType::Timestamp => 3,
            ColumnType::Int16 => 4,
            ColumnType::Int32 => 5,
            ColumnType::Uint16 => 6,
            ColumnType::Binary => 7,
        }
    }

    /// The column type with the given wire number, if there is one.
    pub fn from_i32(value: i32) -> (r: Option<ColumnType>)
        ensures
            r matches Some(t) ==> column_type_code(t) == value,
            r is None <==> (forall|t: ColumnType| column_type_code(t) != value),
            r == (if 0 <= value <= 7 {
                Some(decode_column_type(value))
            } else {
                None
            }),
    {
        let r = match value {
            0 => Some(ColumnType::Unspecified),
            1 => Some(ColumnType::Int64),
            2 => Some(ColumnType::Utf8),
            3 => Some(ColumnType::Timestamp),
            4 => Some(ColumnType::Int16),
            5 => Some(ColumnType::Int32),
            6 => Some(ColumnType::Uint16),
            7 => Some(ColumnType::Binary),
            _ => None,
        };
        proof {
            if r is None {
                assert forall|t: ColumnType| column_type_code(t) != value by {
                    match t {
                        ColumnType::Unspecified => {},
                        _ => {},
                    }
                }
            } else {
                assert(column_type_code(r->Some_0) == value);
            }
        }
        r
    }

    /// String value of the variant, as named in the schema definition.
    pub fn as_str_name(&self) -> (r: &'static str)
        ensures
            r@ == column_type_name(*self),
    {
        match self {
            ColumnType::Unspecified => "COLUMN_TYPE_UNSPECIFIED",
            ColumnType::Int64 => "COLUMN_TYPE_INT64",
            ColumnType::Utf8 => "COLUMN_TYPE_UTF8",
            ColumnType::Timestamp => "COLUMN_TYPE_TIMESTAMP",
            ColumnType::Int16 => "COLUMN_TYPE_INT16",
            ColumnType::Int32 => "COLUMN_TYPE_INT32",
            ColumnType::Uint16 => "COLUMN_TYPE_UINT16",
            ColumnType::Binary => "COLUMN_TYPE_BINARY",
        }
    }

    /// The column type that the schema definition names `value`, if any.
    pub fn from_str_name(value: &str) -> (r: Option<ColumnType>)
        ensures
            r matches Some(t) ==> column_type_name(t) == value@,
            r is None <==> (forall|t: ColumnType| column_type_name(t) != value@),
    {
        let v = value.to_owned();
        let r = if v == "COLUMN_TYPE_UNSPECIFIED".to_owned() {
            Some(ColumnType::Unspecified)
        } else if v == "COLUMN_TYPE_INT64".to_owned() {
            Some(ColumnType::Int64)
        } else if v == "COLUMN_TYPE_UTF8".to_owned() {
            Some(ColumnType::Utf8)
        } else if v == "COLUMN_TYPE_TIMESTAMP".to_owned() {
            Some(ColumnType::Timestamp)
        } else if v == "COLUMN_TYPE_INT16".to_owned() {
            Some(ColumnType::Int16)
        } else if v == "COLUMN_TYPE_INT32".to_owned() {
            Some(ColumnType::Int32)
        } else if v == "COLUMN_TYPE_UINT16".to_owned() {
            Some(ColumnType::Uint16)
        } else if v == "COLUMN_TYPE_BINARY".to_owned() {
            Some(ColumnType::Binary)
        } else {
            None
        };
        proof {
            if r is None {
                reveal_strlit("COLUMN_TYPE_UNSPECIFIED");
                reveal_strlit("COLUMN_TYPE_INT64");
                reveal_strlit("COLUMN_TYPE_UTF8");
                reveal_strlit("COLUMN_TYPE_TIMESTAMP");
                reveal_strlit("COLUMN_TYPE_INT16");
                reveal_strlit("COLUMN_TYPE_INT32");
                reveal_strlit("COLUMN_TYPE_UINT16");
                reveal_strlit("COLUMN_TYPE_BINARY");
                assert forall|t: ColumnType| column_type_name(t) != value@ by {
                    match t {
                        ColumnType::Unspecified => {},
                        _ => {},
                    }
                }
            } else {
                assert(column_type_name(r->Some_0) == value@);
            }
        }
        r
    }
}

/// A span of time, as millisecond timestamps.
#[derive(Clone, Copy, Debug, PartialEq, Eq, Structural)]
pub struct TimeRange {
    pub start_time: i64,
    pub end_time: i64,
}

/// One columnar data file of a table, as the metadata service records it.
#[derive(Clone, Debug, PartialEq)]
pub struct Partition {
    /// Object key of the file, unique within the table.
    pub name: String,
    /// Size of the file in bytes.
    pub size: i64,
    /// The timestamps that the rows of the file span.
    pub time_range: Option<TimeRange>,
}

/// A column as the ingestion pipeline reports it: a name and the wire number
/// of its type.
#[derive(Clone, Debug, PartialEq)]
pub struct Column {
    pub name: String,
    pub column_type: i32,
}

/// A newly written partition together with the columns found in it.
#[derive(Clone, Debug, PartialEq)]
pub struct PartitionWithColumns {
    pub partition: Option<Partition>,
    pub columns: Vec<Column>,
}

pub struct PartitionView {
    pub name: Seq<char>,
    pub size: i64,
    pub time_range: Option<TimeRange>,
}

pub struct ColumnView {
    pub name: Seq<char>,
    pub column_type: i32,
}

impl View for Partition {
    type V = PartitionView;

    open spec fn view(&self) -> PartitionView {
        PartitionView { name: self.name@, size: self.size, time_range: self.time_range }
    }
}

impl View for Column {
    type V = ColumnView;

    open spec fn view(&self) -> ColumnView {
        ColumnView { name: self.name@, column_type: self.column_type }
    }
}

/// The column type that a wire number stands for; a number that names no
/// type reads as `Unspecified`.
pub open spec fn decode_column_type(value: i32) -> ColumnType {
    if value == 1 {
        ColumnType::Int64
    } else if value == 2 {
        ColumnType::Utf8
    } else if value == 3 {
        ColumnType::Timestamp
    } else if value == 4 {
        ColumnType::Int16
    } else if value == 5 {
        ColumnType::Int32
    } else if value == 6 {
        ColumnType::Uint16
    } else if value == 7 {
        ColumnType::Binary
    } else {
        ColumnType::Unspecified
    }
}

/// The column type of a wire number, with `Unspecified` for a number that
/// names none.
pub fn column_type_or_default(value: i32) -> (r: ColumnType)
    ensures
        r == decode_column_type(value),
{
    match ColumnType::from_i32(value) {
        Some(t) => t,
        None => ColumnType::Unspecified,
    }
}

impl Column {
    /// The type of the column; a wire number that names no type reads as
    /// `Unspecified`.
    pub fn get_type(&self) -> (r: ColumnType)
        ensures
            r == decode_column_type(self.column_type),
    {
        column_type_or_default(self.column_type)
    }
}

} // verus!
