use prism::common::{column_type_or_default, Column, ColumnType};
use prism::meta::TableColumn;

const ALL: [(ColumnType, i32, &str); 8] = [
    (ColumnType::Unspecified, 0, "COLUMN_TYPE_UNSPECIFIED"),
    (ColumnType::Int64, 1, "COLUMN_TYPE_INT64"),
    (ColumnType::Utf8, 2, "COLUMN_TYPE_UTF8"),
    (ColumnType::Timestamp, 3, "COLUMN_TYPE_TIMESTAMP"),
    (ColumnType::Int16, 4, "COLUMN_TYPE_INT16"),
    (ColumnType::Int32, 5, "COLUMN_TYPE_INT32"),
    (ColumnType::Uint16, 6, "COLUMN_TYPE_UINT16"),
    (ColumnType::Binary, 7, "COLUMN_TYPE_BINARY"),
];

#[test]
fn wire_numbers_are_stable() {
    for (t, code, _) in ALL {
        assert_eq!(t.to_i32(), code);
        assert_eq!(ColumnType::from_i32(code), Some(t));
    }
    assert_eq!(ColumnType::from_i32(8), None);
    assert_eq!(ColumnType::from_i32(-1), None);
}

#[test]
fn names_round_trip() {
    for (t, _, name) in ALL {
        assert_eq!(t.as_str_name(), name);
        assert_eq!(ColumnType::from_str_name(name), Some(t));
    }
    assert_eq!(ColumnType::from_str_name("COLUMN_TYPE_FLOAT"), None);
    assert_eq!(ColumnType::from_str_name(""), None);
}

#[test]
fn unknown_wire_number_reads_as_unspecified() {
    assert_eq!(column_type_or_default(3), ColumnType::Timestamp);
    assert_eq!(column_type_or_default(99), ColumnType::Unspecified);
    assert_eq!(Column { name: "a".to_string(), column_type: 5 }.get_type(), ColumnType::Int32);
    assert_eq!(TableColumn { name: "a".to_string(), column_type: -3 }.get_type(), ColumnType::Unspecified);
}
