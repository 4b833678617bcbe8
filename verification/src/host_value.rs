//! Host-side values: the closed set of shapes a statement parameter
//! or a materialized cell can take.
//!
//! Floating-point cells travel as the IEEE 754 bit pattern of the
//! 64-bit float, so every contract about them is exact; the embedding
//! converts bits to its native float at the boundary.

use vstd::prelude::*;

verus! {

/// The mathematical shape of a [`HostValue`].
pub enum HostValueModel {
    /// SQL NULL / the absent value.
    MNull,
    /// A boolean.
    MBool(bool),
    /// A 64-bit signed integer; every narrower integer widens to it.
    MInt(i64),
    /// The bit pattern of a 64-bit IEEE 754 float.
    MFloat(u64),
    /// Text.
    MStr(Seq<char>),
    /// An opaque byte sequence.
    MBytes(Seq<u8>),
    /// A timestamp, date or time-of-day carried as ISO-8601 text.
    MDateTime(Seq<char>),
}

/// A value crossing between the embedding and the library: either a
/// bound statement parameter or a materialized cell.
#[derive(Debug)]
pub enum HostValue {
    /// SQL NULL / the absent value.
    Null,
    /// A boolean.
    Bool(bool),
    /// A 64-bit signed integer; every narrower integer widens to it.
    Int(i64),
    /// The bit pattern of a 64-bit IEEE 754 float.
    Float(u64),
    /// Text.
    Str(String),
    /// An opaque byte sequence.
    Bytes(Vec<u8>),
    /// A timestamp, date or time-of-day carried as ISO-8601 text.
    DateTime(String),
}

impl View for HostValue {
    type V = HostValueModel;

    open spec fn view(&self) -> HostValueModel {
        match self {
            HostValue::Null => HostValueModel::MNull,
            HostValue::Bool(b) => HostValueModel::MBool(*b),
            HostValue::Int(i) => HostValueModel::MInt(*i),
            HostValue::Float(bits) => HostValueModel::MFloat(*bits),
            HostValue::Str(s) => HostValueModel::MStr(s@),
            HostValue::Bytes(b) => HostValueModel::MBytes(b@),
            HostValue::DateTime(s) => HostValueModel::MDateTime(s@),
        }
    }
}

/// Copies a byte vector, keeping its contents.
pub fn clone_bytes(v: &Vec<u8>) -> (r: Vec<u8>)
    ensures
        r@ == v@,
{
    vstd::slice::slice_to_vec(v.as_slice())
}

impl HostValue {
    /// The absent value.
    pub fn new_null() -> (r: HostValue)
        ensures
            r@ == HostValueModel::MNull,
    {
        HostValue::Null
    }

    /// A boolean value.
    pub fn new_bool(value: bool) -> (r: HostValue)
        ensures
            r@ == HostValueModel::MBool(value),
    {
        HostValue::Bool(value)
    }

    /// A 64-bit integer value.
    pub fn new_int(value: i64) -> (r: HostValue)
        ensures
            r@ == HostValueModel::MInt(value),
    {
        HostValue::Int(value)
    }

    /// A float value, given as its IEEE 754 bit pattern.
    pub fn new_float_bits(bits: u64) -> (r: HostValue)
        ensures
            r@ == HostValueModel::MFloat(bits),
    {
        HostValue::Float(bits)
    }

    /// A text value.
    pub fn new_string(value: String) -> (r: HostValue)
        ensures
            r@ == HostValueModel::MStr(value@),
    {
        HostValue::Str(value)
    }

    /// A byte-sequence value.
    pub fn new_bytes(value: Vec<u8>) -> (r: HostValue)
        ensures
            r@ == HostValueModel::MBytes(value@),
    {
        HostValue::Bytes(value)
    }

    /// A timestamp value carried as ISO-8601 text.
    pub fn new_datetime(value: String) -> (r: HostValue)
        ensures
            r@ == HostValueModel::MDateTime(value@),
    {
        HostValue::DateTime(value)
    }

    /// True exactly on the absent value.
    pub fn is_null(&self) -> (r: bool)
        ensures
            r == (self@ is MNull),
    {
        matches!(self, HostValue::Null)
    }

    /// A copy with the same model.
    pub fn duplicate(&self) -> (r: HostValue)
        ensures
            r@ == self@,
    {
        match self {
            HostValue::Null => HostValue::Null,
            HostValue::Bool(b) => HostValue::Bool(*b),
            HostValue::Int(i) => HostValue::Int(*i),
            HostValue::Float(bits) => HostValue::Float(*bits),
            HostValue::Str(s) => HostValue::Str(s.clone()),
            HostValue::Bytes(b) => HostValue::Bytes(clone_bytes(b)),
            HostValue::DateTime(s) => HostValue::DateTime(s.clone()),
        }
    }
}

/// Decides whether two byte vectors hold the same bytes.
pub fn bytes_eq(a: &Vec<u8>, b: &Vec<u8>) -> (r: bool)
    ensures
        r == (a@ == b@),
{
    if a.len() != b.len() {
        return false;
    }
    let n = a.len();
    let mut i: usize = 0;
    while i < n
        invariant
            n == a@.len(),
            n == b@.len(),
            i <= n,
            forall|k: int| 0 <= k < i ==> a@[k] == b@[k],
        decreases n - i,
    {
        if a[i] != b[i] {
            return false;
        }
        i = i + 1;
    }
    proof {
        assert(a@ =~= b@);
    }
    true
}

impl PartialEq for HostValue {
    /// Two host values are equal when their models are equal.
    fn eq(&self, other: &HostValue) -> (r: bool) {
        match (self, other) {
            (HostValue::Null, HostValue::Null) => true,
            (HostValue::Bool(a), HostValue::Bool(b)) => *a == *b,
            (HostValue::Int(a), HostValue::Int(b)) => *a == *b,
            (HostValue::Float(a), HostValue::Float(b)) => *a == *b,
            (HostValue::Str(a), HostValue::Str(b)) => *a == *b,
            (HostValue::Bytes(a), HostValue::Bytes(b)) => bytes_eq(a, b),
            (HostValue::DateTime(a), HostValue::DateTime(b)) => *a == *b,
            _ => false,
        }
    }
}

impl vstd::std_specs::cmp::PartialEqSpecImpl for HostValue {
    open spec fn obeys_eq_spec() -> bool {
        true
    }

    open spec fn eq_spec(&self, other: &HostValue) -> bool {
        self@ == other@
    }
}

} // verus!
