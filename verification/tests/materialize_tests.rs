use std::sync::Arc;
use fastmssql::host_value::HostValue;
use fastmssql::materialize::{materialize, materialize_cell, CellData};
use fastmssql::wire_tag::{columnar_type_of, ColumnarType, WireTag};

#[test]
fn one_row_select_end_to_end() {
    // the shape of `SELECT 1 AS a, 'hi' AS b`
    let names = vec!["a".to_string(), "b".to_string()];
    let tags = vec![WireTag::Int4, WireTag::NVarchar];
    let raw = vec![vec![CellData::I32(1), CellData::Str("hi".to_string())]];
    let rs = materialize(names, tags, raw).unwrap();

    assert_eq!(rs.row_count(), 1);
    let row = rs.row_at(0);
    assert_eq!(row.columns(), vec!["a".to_string(), "b".to_string()]);
    assert_eq!(row.get("a").unwrap(), HostValue::Int(1));
    assert_eq!(row.get("b").unwrap(), HostValue::Str("hi".to_string()));
    assert_eq!(row.get_by_index(0).unwrap(), HostValue::Int(1));
    assert_eq!(row.get_by_index(1).unwrap(), HostValue::Str("hi".to_string()));
}

#[test]
fn a_missing_column_is_an_error_not_null() {
    let names = vec!["a".to_string()];
    let tags = vec![WireTag::Int4];
    let raw = vec![vec![CellData::I32(1)]];
    let rs = materialize(names, tags, raw).unwrap();
    let row = rs.row_at(0);
    assert!(row.get("missing").is_err());
    assert!(row.get_by_index(5).is_err());
}

#[test]
fn every_row_shares_the_one_schema_object() {
    let names = vec!["a".to_string(), "b".to_string()];
    let tags = vec![WireTag::Int4, WireTag::Int4];
    let raw = vec![
        vec![CellData::I32(1), CellData::I32(2)],
        vec![CellData::I32(3), CellData::I32(4)],
        vec![CellData::I32(5), CellData::I32(6)],
    ];
    let rs = materialize(names, tags, raw).unwrap();
    let s0 = rs.row_at(0).schema_handle().clone();
    for i in 1..rs.row_count() {
        assert!(Arc::ptr_eq(&s0, rs.row_at(i).schema_handle()));
    }
    assert!(Arc::ptr_eq(&s0, rs.schema_handle()));
}

#[test]
fn writing_one_rows_cell_leaves_the_others_alone() {
    let names = vec!["a".to_string()];
    let tags = vec![WireTag::Int4];
    let raw = vec![vec![CellData::I32(1)], vec![CellData::I32(2)]];
    let mut rs = materialize(names, tags, raw).unwrap();
    rs.set_cell(0, 0, HostValue::Int(99));
    assert_eq!(rs.row_at(0).get_by_index(0).unwrap(), HostValue::Int(99));
    assert_eq!(rs.row_at(1).get_by_index(0).unwrap(), HostValue::Int(2));
}

#[test]
fn a_null_bit_is_absent_not_false() {
    let v = materialize_cell(WireTag::Bit, &CellData::Null);
    assert!(matches!(v, HostValue::Null));
    assert!(v != HostValue::Bool(false));
    let v2 = materialize_cell(WireTag::Bitn, &CellData::Null);
    assert!(matches!(v2, HostValue::Null));
}

#[test]
fn integers_widen_to_sixty_four_bits() {
    assert_eq!(materialize_cell(WireTag::Int1, &CellData::U8(255)), HostValue::Int(255));
    assert_eq!(materialize_cell(WireTag::Int2, &CellData::I16(-7)), HostValue::Int(-7));
    assert_eq!(materialize_cell(WireTag::Int4, &CellData::I32(1 << 20)), HostValue::Int(1 << 20));
    assert_eq!(materialize_cell(WireTag::Int8, &CellData::I64(i64::MIN)), HostValue::Int(i64::MIN));
}

#[test]
fn bits_accept_booleans_and_nonzero_integers() {
    assert_eq!(materialize_cell(WireTag::Bit, &CellData::Bool(true)), HostValue::Bool(true));
    assert_eq!(materialize_cell(WireTag::Bitn, &CellData::U8(1)), HostValue::Bool(true));
    assert_eq!(materialize_cell(WireTag::Bitn, &CellData::U8(0)), HostValue::Bool(false));
    assert_eq!(materialize_cell(WireTag::Bit, &CellData::I32(2)), HostValue::Bool(true));
}

#[test]
fn floats_keep_their_bits() {
    let bits = (2.5f64).to_bits();
    match materialize_cell(WireTag::Float8, &CellData::F64Bits(bits)) {
        HostValue::Float(b) => assert_eq!(f64::from_bits(b), 2.5),
        _ => panic!("a float cell must stay a float"),
    }
}

#[test]
fn dates_and_times_format_as_iso_text() {
    assert_eq!(
        materialize_cell(WireTag::Daten, &CellData::Date(2024, 1, 2)),
        HostValue::DateTime("2024-01-02".to_string())
    );
    assert_eq!(
        materialize_cell(WireTag::Timen, &CellData::Time(3, 4, 5, 123_456_000)),
        HostValue::DateTime("03:04:05.123456".to_string())
    );
    assert_eq!(
        materialize_cell(
            WireTag::Datetime2,
            &CellData::DateTime(2024, 1, 2, 3, 4, 5, 123_456_000)
        ),
        HostValue::DateTime("2024-01-02 03:04:05.123456".to_string())
    );
    assert_eq!(
        materialize_cell(WireTag::Datetime, &CellData::DateTime(2024, 1, 2, 3, 4, 5, 0)),
        HostValue::DateTime("2024-01-02 03:04:05".to_string())
    );
}

#[test]
fn offset_datetimes_format_as_rfc3339_utc() {
    assert_eq!(
        materialize_cell(
            WireTag::DatetimeOffsetn,
            &CellData::DateTimeUtc(2024, 1, 2, 3, 4, 5, 0)
        ),
        HostValue::DateTime("2024-01-02T03:04:05+00:00".to_string())
    );
}

#[test]
fn an_impossible_date_degrades_to_null() {
    assert_eq!(
        materialize_cell(WireTag::Daten, &CellData::Date(2023, 2, 30)),
        HostValue::Null
    );
}

#[test]
fn guids_become_hyphenated_text() {
    let bytes = [
        0x00, 0x11, 0x22, 0x33, 0x44, 0x55, 0x66, 0x77, 0x88, 0x99, 0xaa, 0xbb, 0xcc, 0xdd,
        0xee, 0xff,
    ];
    assert_eq!(
        materialize_cell(WireTag::Guid, &CellData::Guid(bytes)),
        HostValue::Str("00112233-4455-6677-8899-aabbccddeeff".to_string())
    );
}

#[test]
fn binary_columns_keep_their_bytes() {
    assert_eq!(
        materialize_cell(WireTag::BigVarBin, &CellData::Bytes(vec![1, 2, 3])),
        HostValue::Bytes(vec![1, 2, 3])
    );
}

#[test]
fn a_mismatched_cell_degrades_to_its_text_else_null() {
    // an integer column whose payload decoded only as text keeps the text
    assert_eq!(
        materialize_cell(WireTag::Int4, &CellData::Str("12".to_string())),
        HostValue::Str("12".to_string())
    );
    // an unrecognized tag with a non-text payload becomes NULL
    assert_eq!(
        materialize_cell(WireTag::Udt, &CellData::Bytes(vec![1])),
        HostValue::Null
    );
    // an unrecognized tag with text keeps the text
    assert_eq!(
        materialize_cell(WireTag::SSVariant, &CellData::Str("v".to_string())),
        HostValue::Str("v".to_string())
    );
}

#[test]
fn a_ragged_row_fails_materialization() {
    let names = vec!["a".to_string(), "b".to_string()];
    let tags = vec![WireTag::Int4, WireTag::Int4];
    let raw = vec![vec![CellData::I32(1)]];
    assert!(materialize(names, tags, raw).is_err());
}

#[test]
fn columnar_types_follow_the_table() {
    assert_eq!(columnar_type_of(WireTag::Int2), ColumnarType::Int64);
    assert_eq!(columnar_type_of(WireTag::Floatn), ColumnarType::Float64);
    assert_eq!(columnar_type_of(WireTag::NVarchar), ColumnarType::Utf8);
    assert_eq!(columnar_type_of(WireTag::Guid), ColumnarType::Utf8);
    assert_eq!(columnar_type_of(WireTag::Bitn), ColumnarType::Boolean);
    assert_eq!(columnar_type_of(WireTag::Money), ColumnarType::Decimal128(38, 4));
    assert_eq!(columnar_type_of(WireTag::Numericn), ColumnarType::Decimal128(38, 10));
    assert_eq!(columnar_type_of(WireTag::Datetime2), ColumnarType::TimestampMicros);
    assert_eq!(columnar_type_of(WireTag::Daten), ColumnarType::Date32);
    assert_eq!(columnar_type_of(WireTag::Timen), ColumnarType::Time64Micros);
    assert_eq!(columnar_type_of(WireTag::Image), ColumnarType::Binary);
    assert_eq!(columnar_type_of(WireTag::Null), ColumnarType::NullType);
}
