//! Wire type tags: the protocol-level tag describing a column's
//! binary encoding, and the total mapping from tags to columnar field
//! types for the columnar-table boundary.

use vstd::prelude::*;

verus! {

/// The protocol-level tag of a column's binary encoding, one variant
/// per tag of the protocol client.
#[derive(Clone, Copy, Debug, PartialEq, Eq, Structural)]
pub enum WireTag {
    /// The column has no specified type.
    Null,
    /// A single bit.
    Bit,
    /// An 8-bit integer.
    Int1,
    /// A 16-bit integer.
    Int2,
    /// A 32-bit integer.
    Int4,
    /// A 64-bit integer.
    Int8,
    /// A 32-bit datetime.
    Datetime4,
    /// A 32-bit float.
    Float4,
    /// A 64-bit float.
    Float8,
    /// A money value.
    Money,
    /// A datetime value.
    Datetime,
    /// A 32-bit money value.
    Money4,
    /// A unique identifier.
    Guid,
    /// A variable-width integer.
    Intn,
    /// A bit inside a variable-width column.
    Bitn,
    /// A decimal value.
    Decimaln,
    /// A numeric value.
    Numericn,
    /// A variable-width float.
    Floatn,
    /// A variable-width datetime.
    Datetimen,
    /// A date.
    Daten,
    /// A time of day.
    Timen,
    /// A high-precision datetime.
    Datetime2,
    /// A datetime with a time-zone offset.
    DatetimeOffsetn,
    /// Variable-length binary.
    BigVarBin,
    /// Variable-length text.
    BigVarChar,
    /// Fixed-length binary.
    BigBinary,
    /// Fixed-length text.
    BigChar,
    /// Variable-length UTF-16 text.
    NVarchar,
    /// Fixed-length UTF-16 text.
    NChar,
    /// An XML document.
    Xml,
    /// A user-defined type.
    Udt,
    /// Legacy large text.
    Text,
    /// A legacy large binary image.
    Image,
    /// Legacy large UTF-16 text.
    NText,
    /// A variant-typed value.
    SSVariant,
}

/// A field type of the columnar-table boundary.
#[derive(Clone, Copy, Debug, PartialEq, Eq, Structural)]
pub enum ColumnarType {
    /// 64-bit signed integers.
    Int64,
    /// 64-bit floats.
    Float64,
    /// UTF-8 text.
    Utf8,
    /// Booleans.
    Boolean,
    /// Fixed-point decimals with the given precision and scale.
    Decimal128(u32, u32),
    /// Microsecond-precision timestamps.
    TimestampMicros,
    /// Calendar dates.
    Date32,
    /// Microsecond-precision times of day.
    Time64Micros,
    /// Opaque bytes.
    Binary,
    /// The null type.
    NullType,
}

/// The columnar field type of each wire tag: integers widen to 64
/// bits, floats to 64 bits, every text-like tag becomes UTF-8 text,
/// the money family becomes decimal(38, 4) and the general decimal
/// family decimal(38, 10), the datetime family becomes a
/// microsecond timestamp, and unrecognized tags carry opaque bytes.
pub open spec fn spec_columnar_type(tag: WireTag) -> ColumnarType {
    match tag {
        WireTag::Int1 | WireTag::Int2 | WireTag::Int4 | WireTag::Int8 | WireTag::Intn
            => ColumnarType::Int64,
        WireTag::Float4 | WireTag::Float8 | WireTag::Floatn => ColumnarType::Float64,
        WireTag::NVarchar | WireTag::NChar | WireTag::BigVarChar | WireTag::BigChar
            | WireTag::Text | WireTag::NText | WireTag::Guid | WireTag::Xml => ColumnarType::Utf8,
        WireTag::Bit | WireTag::Bitn => ColumnarType::Boolean,
        WireTag::Money | WireTag::Money4 => ColumnarType::Decimal128(38, 4),
        WireTag::Decimaln | WireTag::Numericn => ColumnarType::Decimal128(38, 10),
        WireTag::Datetime | WireTag::Datetimen | WireTag::Datetime2 | WireTag::Datetime4
            | WireTag::DatetimeOffsetn => ColumnarType::TimestampMicros,
        WireTag::Daten => ColumnarType::Date32,
        WireTag::Timen => ColumnarType::Time64Micros,
        WireTag::BigVarBin | WireTag::BigBinary | WireTag::Image | WireTag::SSVariant
            | WireTag::Udt => ColumnarType::Binary,
        WireTag::Null => ColumnarType::NullType,
    }
}

/// Maps a wire tag to its columnar field type; total over every tag.
pub fn columnar_type_of(tag: WireTag) -> (r: ColumnarType)
    ensures
        r == spec_columnar_type(tag),
{
    match tag {
        WireTag::Int1 | WireTag::Int2 | WireTag::Int4 | WireTag::Int8 | WireTag::Intn
            => ColumnarType::Int64,
        WireTag::Float4 | WireTag::Float8 | WireTag::Floatn => ColumnarType::Float64,
        WireTag::NVarchar | WireTag::NChar | WireTag::BigVarChar | WireTag::BigChar
            | WireTag::Text | WireTag::NText | WireTag::Guid | WireTag::Xml => ColumnarType::Utf8,
        WireTag::Bit | WireTag::Bitn => ColumnarType::Boolean,
        WireTag::Money | WireTag::Money4 => ColumnarType::Decimal128(38, 4),
        WireTag::Decimaln | WireTag::Numericn => ColumnarType::Decimal128(38, 10),
        WireTag::Datetime | WireTag::Datetimen | WireTag::Datetime2 | WireTag::Datetime4
            | WireTag::DatetimeOffsetn => ColumnarType::TimestampMicros,
        WireTag::Daten => ColumnarType::Date32,
        WireTag::Timen => ColumnarType::Time64Micros,
        WireTag::BigVarBin | WireTag::BigBinary | WireTag::Image | WireTag::SSVariant
            | WireTag::Udt => ColumnarType::Binary,
        WireTag::Null => ColumnarType::NullType,
    }
}

} // verus!
