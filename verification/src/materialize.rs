//! Row materializer: the total mapping from wire type tags and
//! natively decoded cells to host values.
//!
//! The transport layer decodes each cell's binary payload with the
//! protocol client and hands over a [`CellData`]: SQL NULL, a typed
//! native value, text, bytes, or calendar fields. The library owns
//! the mapping table from (tag, cell) to host value: integers widen
//! to 64 bits, bit columns stay NULL-safe, calendar cells format as
//! ISO-8601 text, GUID cells become hyphenated text, and a cell that
//! does not match its column's tag degrades to its text, else to
//! NULL — a decode mismatch never fails the row.
//!
//! Floats travel as IEEE 754 bit patterns: the transport widens
//! 32-bit floats and converts fixed-scale decimal and money payloads
//! to 64-bit float bits before handing cells over, since float
//! arithmetic stays outside the library.

use std::sync::Arc;
use vstd::prelude::*;
use crate::columns::{ColumnInfo, ResultSet, Row};
use crate::errors::Error;
use crate::host_value::{HostValue, HostValueModel};
use crate::wire_tag::WireTag;

verus! {

/// One cell as the transport decoded it natively: NULL, a typed
/// value, text, bytes, a GUID, or broken-out calendar fields.
pub enum CellData {
    /// SQL NULL.
    Null,
    /// A native boolean.
    Bool(bool),
    /// An unsigned 8-bit integer.
    U8(u8),
    /// A 16-bit integer.
    I16(i16),
    /// A 32-bit integer.
    I32(i32),
    /// A 64-bit integer.
    I64(i64),
    /// The bit pattern of a 64-bit IEEE 754 float.
    F64Bits(u64),
    /// Decoded text.
    Str(String),
    /// Raw bytes.
    Bytes(Vec<u8>),
    /// A GUID as its sixteen bytes.
    Guid([u8; 16]),
    /// A calendar date: year, month, day.
    Date(i32, u8, u8),
    /// A time of day: hour, minute, second, nanoseconds.
    Time(u8, u8, u8, u32),
    /// A naive timestamp: year, month, day, hour, minute, second,
    /// nanoseconds.
    DateTime(i32, u8, u8, u8, u8, u8, u32),
    /// A UTC-normalized timestamp with the same fields.
    DateTimeUtc(i32, u8, u8, u8, u8, u8, u32),
}

// --- trusted text formatting ---------------------------------------------

/// The `%Y-%m-%d` text of a date, or nothing when the date does not
/// exist.
pub uninterp spec fn date_text_opt(y: int, m: int, d: int) -> Option<Seq<char>>;

/// The `%H:%M:%S%.f` text of a time of day, or nothing when the time
/// does not exist.
pub uninterp spec fn time_text_opt(h: int, mi: int, s: int, nanos: int) -> Option<Seq<char>>;

/// The `%Y-%m-%d %H:%M:%S%.f` text of a naive timestamp, or nothing
/// when it does not exist.
pub uninterp spec fn datetime_text_opt(
    y: int,
    m: int,
    d: int,
    h: int,
    mi: int,
    s: int,
    nanos: int,
) -> Option<Seq<char>>;

/// The RFC 3339 text of a UTC timestamp, or nothing when it does not
/// exist.
pub uninterp spec fn utc_text_opt(
    y: int,
    m: int,
    d: int,
    h: int,
    mi: int,
    s: int,
    nanos: int,
) -> Option<Seq<char>>;

/// The hyphenated text of a GUID's sixteen bytes.
pub uninterp spec fn guid_text(bytes: Seq<u8>) -> Seq<char>;

/// Relies on chrono's NaiveDate: `from_ymd_opt` decides whether the
/// date exists, and the `%Y-%m-%d` format writes its text; both
/// depend on the numbers alone.
#[verifier::external_body]
fn format_date(y: i32, m: u8, d: u8) -> (r: Option<String>)
    ensures
        r is Some <==> date_text_opt(y as int, m as int, d as int) is Some,
        r matches Some(s) ==> date_text_opt(y as int, m as int, d as int) == Some(s@),
{
    match chrono::NaiveDate::from_ymd_opt(y, m as u32, d as u32) {
        Some(x) => Some(x.format("%Y-%m-%d").to_string()),
        None => None,
    }
}

/// Relies on chrono's NaiveTime: `from_hms_nano_opt` decides whether
/// the time exists, and the `%H:%M:%S%.f` format writes its text;
/// both depend on the numbers alone.
#[verifier::external_body]
fn format_time(h: u8, mi: u8, s: u8, nanos: u32) -> (r: Option<String>)
    ensures
        r is Some <==> time_text_opt(h as int, mi as int, s as int, nanos as int) is Some,
        r matches Some(t) ==> time_text_opt(h as int, mi as int, s as int, nanos as int) == Some(
            t@,
        ),
{
    match chrono::NaiveTime::from_hms_nano_opt(h as u32, mi as u32, s as u32, nanos) {
        Some(x) => Some(x.format("%H:%M:%S%.f").to_string()),
        None => None,
    }
}

/// Relies on chrono's NaiveDate and NaiveDateTime: the constructors
/// decide whether the timestamp exists, and the
/// `%Y-%m-%d %H:%M:%S%.f` format writes its text; all depend on the
/// numbers alone.
#[verifier::external_body]
fn format_datetime(y: i32, m: u8, d: u8, h: u8, mi: u8, s: u8, nanos: u32) -> (r: Option<String>)
    ensures
        r is Some <==> datetime_text_opt(
            y as int,
            m as int,
            d as int,
            h as int,
            mi as int,
            s as int,
            nanos as int,
        ) is Some,
        r matches Some(t) ==> datetime_text_opt(
            y as int,
            m as int,
            d as int,
            h as int,
            mi as int,
            s as int,
            nanos as int,
        ) == Some(t@),
{
    match chrono::NaiveDate::from_ymd_opt(y, m as u32, d as u32) {
        Some(date) => match date.and_hms_nano_opt(h as u32, mi as u32, s as u32, nanos) {
            Some(x) => Some(x.format("%Y-%m-%d %H:%M:%S%.f").to_string()),
            None => None,
        },
        None => None,
    }
}

/// Relies on chrono's UTC DateTime: the constructors decide whether
/// the timestamp exists, and `to_rfc3339` writes its text; all depend
/// on the numbers alone.
#[verifier::external_body]
fn format_utc(y: i32, m: u8, d: u8, h: u8, mi: u8, s: u8, nanos: u32) -> (r: Option<String>)
    ensures
        r is Some <==> utc_text_opt(
            y as int,
            m as int,
            d as int,
            h as int,
            mi as int,
            s as int,
            nanos as int,
        ) is Some,
        r matches Some(t) ==> utc_text_opt(
            y as int,
            m as int,
            d as int,
            h as int,
            mi as int,
            s as int,
            nanos as int,
        ) == Some(t@),
{
    match chrono::NaiveDate::from_ymd_opt(y, m as u32, d as u32) {
        Some(date) => match date.and_hms_nano_opt(h as u32, mi as u32, s as u32, nanos) {
            Some(x) => Some(x.and_utc().to_rfc3339()),
            None => None,
        },
        None => None,
    }
}

/// Relies on the uuid crate: a GUID's canonical text is the
/// hyphenated lower-case form of its sixteen bytes, 36 characters
/// long, and depends on the bytes alone.
#[verifier::external_body]
fn guid_string(bytes: &[u8; 16]) -> (r: String)
    ensures
        r@ == guid_text(bytes@),
        r@.len() == 36,
{
    uuid::Uuid::from_bytes(*bytes).to_string()
}

// --- the mapping table ---------------------------------------------------

/// The defensive fallback for a cell that does not match its
/// column's tag: its text when it has one, else NULL. A mismatch
/// never fails the row.
pub open spec fn spec_fallback(c: CellData) -> HostValueModel {
    match c {
        CellData::Str(s) => HostValueModel::MStr(s@),
        _ => HostValueModel::MNull,
    }
}

/// The mapping table from a column's wire tag and its natively
/// decoded cell to the host value: NULL stays NULL under every tag
/// (a NULL bit is absent, not false); integers widen to 64 bits; bit
/// columns accept native booleans and nonzero small integers;
/// calendar cells format as ISO-8601 text; GUID cells become
/// hyphenated text; anything else degrades by [`spec_fallback`].
pub open spec fn spec_cell_value(tag: WireTag, c: CellData) -> HostValueModel {
    if c is Null {
        HostValueModel::MNull
    } else {
        match tag {
            WireTag::Int1 | WireTag::Int2 | WireTag::Int4 | WireTag::Int8 | WireTag::Intn => match c {
                CellData::U8(v) => HostValueModel::MInt(v as i64),
                CellData::I16(v) => HostValueModel::MInt(v as i64),
                CellData::I32(v) => HostValueModel::MInt(v as i64),
                CellData::I64(v) => HostValueModel::MInt(v),
                _ => spec_fallback(c),
            },
            WireTag::Float4 | WireTag::Float8 | WireTag::Floatn | WireTag::Money | WireTag::Money4
                | WireTag::Decimaln | WireTag::Numericn => match c {
                CellData::F64Bits(b) => HostValueModel::MFloat(b),
                _ => spec_fallback(c),
            },
            WireTag::Bit | WireTag::Bitn => match c {
                CellData::Bool(b) => HostValueModel::MBool(b),
                CellData::U8(v) => HostValueModel::MBool(v != 0),
                CellData::I32(v) => HostValueModel::MBool(v != 0),
                _ => spec_fallback(c),
            },
            WireTag::NVarchar | WireTag::NChar | WireTag::BigVarChar | WireTag::BigChar
                | WireTag::Text | WireTag::NText | WireTag::Xml => match c {
                CellData::Str(s) => HostValueModel::MStr(s@),
                _ => spec_fallback(c),
            },
            WireTag::Guid => match c {
                CellData::Guid(b) => HostValueModel::MStr(guid_text(b@)),
                _ => spec_fallback(c),
            },
            WireTag::BigVarBin | WireTag::BigBinary | WireTag::Image => match c {
                CellData::Bytes(b) => HostValueModel::MBytes(b@),
                _ => spec_fallback(c),
            },
            WireTag::Daten => match c {
                CellData::Date(y, m, d) => match date_text_opt(y as int, m as int, d as int) {
                    Some(t) => HostValueModel::MDateTime(t),
                    None => HostValueModel::MNull,
                },
                _ => spec_fallback(c),
            },
            WireTag::Timen => match c {
                CellData::Time(h, mi, s, nanos) => match time_text_opt(
                    h as int,
                    mi as int,
                    s as int,
                    nanos as int,
                ) {
                    Some(t) => HostValueModel::MDateTime(t),
                    None => HostValueModel::MNull,
                },
                _ => spec_fallback(c),
            },
            WireTag::Datetime | WireTag::Datetimen | WireTag::Datetime2 | WireTag::Datetime4 => match c {
                CellData::DateTime(y, m, d, h, mi, s, nanos) => match datetime_text_opt(
                    y as int,
                    m as int,
                    d as int,
                    h as int,
                    mi as int,
                    s as int,
                    nanos as int,
                ) {
                    Some(t) => HostValueModel::MDateTime(t),
                    None => HostValueModel::MNull,
                },
                _ => spec_fallback(c),
            },
            WireTag::DatetimeOffsetn => match c {
                CellData::DateTimeUtc(y, m, d, h, mi, s, nanos) => match utc_text_opt(
                    y as int,
                    m as int,
                    d as int,
                    h as int,
                    mi as int,
                    s as int,
                    nanos as int,
                ) {
                    Some(t) => HostValueModel::MDateTime(t),
                    None => HostValueModel::MNull,
                },
                _ => spec_fallback(c),
            },
            WireTag::Udt | WireTag::SSVariant | WireTag::Null => spec_fallback(c),
        }
    }
}

/// Materializes one cell by the mapping table; total, and never
/// fails.
pub fn materialize_cell(tag: WireTag, c: &CellData) -> (r: HostValue)
    ensures
        r@ == spec_cell_value(tag, *c),
{
    match c {
        CellData::Null => HostValue::Null,
        _ => match tag {
            WireTag::Int1 | WireTag::Int2 | WireTag::Int4 | WireTag::Int8 | WireTag::Intn => match c {
                CellData::U8(v) => HostValue::Int(*v as i64),
                CellData::I16(v) => HostValue::Int(*v as i64),
                CellData::I32(v) => HostValue::Int(*v as i64),
                CellData::I64(v) => HostValue::Int(*v),
                _ => fallback_cell(c),
            },
            WireTag::Float4 | WireTag::Float8 | WireTag::Floatn | WireTag::Money | WireTag::Money4
                | WireTag::Decimaln | WireTag::Numericn => match c {
                CellData::F64Bits(b) => HostValue::Float(*b),
                _ => fallback_cell(c),
            },
            WireTag::Bit | WireTag::Bitn => match c {
                CellData::Bool(b) => HostValue::Bool(*b),
                CellData::U8(v) => HostValue::Bool(*v != 0),
                CellData::I32(v) => HostValue::Bool(*v != 0),
                _ => fallback_cell(c),
            },
            WireTag::NVarchar | WireTag::NChar | WireTag::BigVarChar | WireTag::BigChar
                | WireTag::Text | WireTag::NText | WireTag::Xml => match c {
                CellData::Str(s) => HostValue::Str(s.clone()),
                _ => fallback_cell(c),
            },
            WireTag::Guid => match c {
                CellData::Guid(b) => HostValue::Str(guid_string(b)),
                _ => fallback_cell(c),
            },
            WireTag::BigVarBin | WireTag::BigBinary | WireTag::Image => match c {
                CellData::Bytes(b) => HostValue::Bytes(crate::host_value::clone_bytes(b)),
                _ => fallback_cell(c),
            },
            WireTag::Daten => match c {
                CellData::Date(y, m, d) => match format_date(*y, *m, *d) {
                    Some(t) => HostValue::DateTime(t),
                    None => HostValue::Null,
                },
                _ => fallback_cell(c),
            },
            WireTag::Timen => match c {
                CellData::Time(h, mi, s, nanos) => match format_time(*h, *mi, *s, *nanos) {
                    Some(t) => HostValue::DateTime(t),
                    None => HostValue::Null,
                },
                _ => fallback_cell(c),
            },
            WireTag::Datetime | WireTag::Datetimen | WireTag::Datetime2 | WireTag::Datetime4 => match c {
                CellData::DateTime(y, m, d, h, mi, s, nanos) => match format_datetime(
                    *y,
                    *m,
                    *d,
                    *h,
                    *mi,
                    *s,
                    *nanos,
                ) {
                    Some(t) => HostValue::DateTime(t),
                    None => HostValue::Null,
                },
                _ => fallback_cell(c),
            },
            WireTag::DatetimeOffsetn => match c {
                CellData::DateTimeUtc(y, m, d, h, mi, s, nanos) => match format_utc(
                    *y,
                    *m,
                    *d,
                    *h,
                    *mi,
                    *s,
                    *nanos,
                ) {
                    Some(t) => HostValue::DateTime(t),
                    None => HostValue::Null,
                },
                _ => fallback_cell(c),
            },
            WireTag::Udt | WireTag::SSVariant | WireTag::Null => fallback_cell(c),
        },
    }
}

/// The defensive fallback, executable side.
fn fallback_cell(c: &CellData) -> (r: HostValue)
    ensures
        r@ == spec_fallback(*c),
{
    match c {
        CellData::Str(s) => HostValue::Str(s.clone()),
        _ => HostValue::Null,
    }
}

/// A NULL bit column materializes to the absent value, never to
/// `false`: NULL-safety of the boolean mapping.
pub proof fn lemma_null_bit_stays_absent(tag: WireTag)
    requires
        tag == WireTag::Bit || tag == WireTag::Bitn,
    ensures
        spec_cell_value(tag, CellData::Null) == HostValueModel::MNull,
        spec_cell_value(tag, CellData::Null) != HostValueModel::MBool(false),
{
}

// --- whole result sets ---------------------------------------------------

/// Materializes one raw row against the shared schema.
pub fn materialize_row(schema: &Arc<ColumnInfo>, cells: &Vec<CellData>) -> (r: Row)
    requires
        schema@.wf(),
        cells@.len() == schema@.names.len(),
    ensures
        r@.wf(),
        r@.schema == schema@,
        r@.values.len() == cells@.len(),
        forall|j: int| 0 <= j < cells@.len() ==> r@.values[j] == spec_cell_value(
            schema@.tags[j],
            #[trigger] cells@[j],
        ),
{
    let n = cells.len();
    let mut values: Vec<HostValue> = Vec::new();
    let mut j: usize = 0;
    while j < n
        invariant
            schema@.wf(),
            n == cells@.len(),
            n == schema@.names.len(),
            j <= n,
            values@.len() == j,
            forall|k: int| 0 <= k < j ==> values@[k]@ == spec_cell_value(
                schema@.tags[k],
                #[trigger] cells@[k],
            ),
        decreases n - j,
    {
        let tag = schema.tag_at(j);
        let v = materialize_cell(tag, &cells[j]);
        values.push(v);
        j = j + 1;
    }
    let row = Row::new(schema, values);
    proof {
        assert forall|k: int| 0 <= k < cells@.len() implies row@.values[k] == spec_cell_value(
            schema@.tags[k],
            #[trigger] cells@[k],
        ) by {}
    }
    row
}

/// Builds a whole result set: the schema is computed exactly once
/// from the column descriptors, every row is materialized against it
/// by the mapping table, and all rows share that one schema object.
/// The call fails exactly when the descriptors or a row are ragged.
pub fn materialize(names: Vec<String>, tags: Vec<WireTag>, raw: Vec<Vec<CellData>>) -> (r: Result<
    ResultSet,
    Error,
>)
    ensures
        r is Ok <==> names@.len() == tags@.len() && (forall|i: int|
            0 <= i < raw@.len() ==> (#[trigger] raw@[i])@.len() == names@.len()),
        r matches Ok(rs) ==> {
            &&& rs@.wf()
            &&& rs.shares_schema()
            &&& rs@.schema.names == names@.map_values(|n: String| n@)
            &&& rs@.schema.tags == tags@
            &&& rs@.rows.len() == raw@.len()
            &&& forall|i: int, j: int|
                0 <= i < raw@.len() && 0 <= j < names@.len() ==> rs@.rows[i][j] == spec_cell_value(
                    tags@[j],
                    raw@[i]@[j],
                )
        },
        r matches Err(e) ==> e is ExecutionFailed,
{
    if names.len() != tags.len() {
        return Err(Error::ExecutionFailed(String::from_str(
            "result metadata misaligned: one tag per column is required",
        )));
    }
    let width = names.len();
    let mut i: usize = 0;
    let m = raw.len();
    while i < m
        invariant
            m == raw@.len(),
            i <= m,
            width == names@.len(),
            forall|k: int| 0 <= k < i ==> (#[trigger] raw@[k])@.len() == width,
        decreases m - i,
    {
        if raw[i].len() != width {
            proof {
                assert(raw@[i as int]@.len() != names@.len());
            }
            return Err(Error::ExecutionFailed(String::from_str(
                "result row misaligned: one cell per column is required",
            )));
        }
        i = i + 1;
    }
    let schema = Arc::new(ColumnInfo::new(names, tags));
    let ghost schema_model = schema@;
    let mut rows: Vec<Row> = Vec::new();
    let mut r: usize = 0;
    while r < m
        invariant
            m == raw@.len(),
            r <= m,
            schema@ == schema_model,
            schema_model.wf(),
            width == schema_model.names.len(),
            forall|k: int| 0 <= k < m ==> (#[trigger] raw@[k])@.len() == width,
            rows@.len() == r,
            forall|k: int| 0 <= k < r ==> (#[trigger] rows@[k])@.schema == schema_model,
            forall|k: int| 0 <= k < r ==> (#[trigger] rows@[k])@.values.len() == width,
            forall|k: int, j: int| #![trigger rows@[k]@.values[j]]
                0 <= k < r && 0 <= j < width ==> rows@[k]@.values[j]
                    == spec_cell_value(schema_model.tags[j], raw@[k]@[j]),
        decreases m - r,
    {
        let row = materialize_row(&schema, &raw[r]);
        rows.push(row);
        r = r + 1;
    }
    let rs = ResultSet { schema, rows };
    proof {
        assert(rs@.wf());
        assert(rs.shares_schema());
        assert forall|i2: int, j: int|
            0 <= i2 < raw@.len() && 0 <= j < rs@.schema.names.len() implies rs@.rows[i2][j]
            == spec_cell_value(rs@.schema.tags[j], raw@[i2]@[j]) by {
            assert(rs@.rows[i2] == rows@[i2]@.values);
        }
    }
    Ok(rs)
}

} // verus!
