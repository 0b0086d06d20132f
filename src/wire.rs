//! The engine's wire records, without pointers: the tagged value union, the
//! per-type payloads and the type codes.
//!
//! The embedding program copies these to and from the engine's C layout; the
//! conversions between them and [`Value`] / [`RawValue`] are here.
#![allow(non_camel_case_types)]

use vstd::prelude::*;
use vstd::slice::slice_to_vec;
use vstd::utf8::{decode_utf8, encode_utf8, valid_utf8};
use crate::instant::NetworkTablesInstant;
use crate::value::{strings_view, RawValue, Value, ValueType, ValueView};

verus! {

broadcast use {vstd::utf8::encode_utf8_valid_utf8, vstd::utf8::encode_utf8_decode_utf8};

pub const NT_UNASSIGNED: u32 = 0x0;
pub const NT_BOOLEAN: u32 = 0x1;
pub const NT_DOUBLE: u32 = 0x2;
pub const NT_STRING: u32 = 0x4;
pub const NT_RAW: u32 = 0x8;
pub const NT_BOOLEAN_ARRAY: u32 = 0x10;
pub const NT_DOUBLE_ARRAY: u32 = 0x20;
pub const NT_STRING_ARRAY: u32 = 0x40;
pub const NT_RPC: u32 = 0x80;
pub const NT_INTEGER: u32 = 0x100;
pub const NT_FLOAT: u32 = 0x200;
pub const NT_INTEGER_ARRAY: u32 = 0x400;
pub const NT_FLOAT_ARRAY: u32 = 0x800;

/// The engine's code for a value type.
pub open spec fn type_code_spec(t: ValueType) -> u32 {
    match t {
        ValueType::Unassigned => NT_UNASSIGNED,
        ValueType::Bool => NT_BOOLEAN,
        ValueType::I64 => NT_INTEGER,
        ValueType::F32 => NT_FLOAT,
        ValueType::F64 => NT_DOUBLE,
        ValueType::String => NT_STRING,
        ValueType::Raw => NT_RAW,
        ValueType::BoolArray => NT_BOOLEAN_ARRAY,
        ValueType::F64Array => NT_DOUBLE_ARRAY,
        ValueType::F32Array => NT_FLOAT_ARRAY,
        ValueType::I64Array => NT_INTEGER_ARRAY,
        ValueType::StringArray => NT_STRING_ARRAY,
    }
}

/// Whether the engine defines `code` as a type code.
pub open spec fn is_type_code(code: u32) -> bool {
    code == NT_UNASSIGNED || code == NT_BOOLEAN || code == NT_DOUBLE || code == NT_STRING
        || code == NT_RAW || code == NT_BOOLEAN_ARRAY || code == NT_DOUBLE_ARRAY
        || code == NT_STRING_ARRAY || code == NT_RPC || code == NT_INTEGER || code == NT_FLOAT
        || code == NT_INTEGER_ARRAY || code == NT_FLOAT_ARRAY
}

/// The value type that an engine type code stands for; a remote procedure
/// (`NT_RPC`) carries no value and reads as unassigned.
pub open spec fn type_of_code(code: u32) -> ValueType {
    if code == NT_BOOLEAN {
        ValueType::Bool
    } else if code == NT_INTEGER {
        ValueType::I64
    } else if code == NT_FLOAT {
        ValueType::F32
    } else if code == NT_DOUBLE {
        ValueType::F64
    } else if code == NT_STRING {
        ValueType::String
    } else if code == NT_RAW {
        ValueType::Raw
    } else if code == NT_BOOLEAN_ARRAY {
        ValueType::BoolArray
    } else if code == NT_DOUBLE_ARRAY {
        ValueType::F64Array
    } else if code == NT_FLOAT_ARRAY {
        ValueType::F32Array
    } else if code == NT_INTEGER_ARRAY {
        ValueType::I64Array
    } else if code == NT_STRING_ARRAY {
        ValueType::StringArray
    } else {
        ValueType::Unassigned
    }
}

impl ValueType {
    /// The engine's code for this type.
    pub fn to_code(&self) -> (r: u32)
        ensures
            r == type_code_spec(*self),
    {
        match self {
            ValueType::Unassigned => NT_UNASSIGNED,
            ValueType::Bool => NT_BOOLEAN,
            ValueType::I64 => NT_INTEGER,
            ValueType::F32 => NT_FLOAT,
            ValueType::F64 => NT_DOUBLE,
            ValueType::String => NT_STRING,
            ValueType::Raw => NT_RAW,
            ValueType::BoolArray => NT_BOOLEAN_ARRAY,
            ValueType::F64Array => NT_DOUBLE_ARRAY,
            ValueType::F32Array => NT_FLOAT_ARRAY,
            ValueType::I64Array => NT_INTEGER_ARRAY,
            ValueType::StringArray => NT_STRING_ARRAY,
        }
    }

    /// Whether the engine defines `code` as a type code.
    pub fn is_code(code: u32) -> (r: bool)
        ensures
            r == is_type_code(code),
    {
        code == NT_UNASSIGNED || code == NT_BOOLEAN || code == NT_DOUBLE || code == NT_STRING
            || code == NT_RAW || code == NT_BOOLEAN_ARRAY || code == NT_DOUBLE_ARRAY
            || code == NT_STRING_ARRAY || code == NT_RPC || code == NT_INTEGER || code == NT_FLOAT
            || code == NT_INTEGER_ARRAY || code == NT_FLOAT_ARRAY
    }

    /// The value type for an engine type code.
    pub fn from_code(code: u32) -> (r: ValueType)
        requires
            is_type_code(code),
        ensures
            r == type_of_code(code),
    {
        if code == NT_BOOLEAN {
            ValueType::Bool
        } else if code == NT_INTEGER {
            ValueType::I64
        } else if code == NT_FLOAT {
            ValueType::F32
        } else if code == NT_DOUBLE {
            ValueType::F64
        } else if code == NT_STRING {
            ValueType::String
        } else if code == NT_RAW {
            ValueType::Raw
        } else if code == NT_BOOLEAN_ARRAY {
            ValueType::BoolArray
        } else if code == NT_DOUBLE_ARRAY {
            ValueType::F64Array
        } else if code == NT_FLOAT_ARRAY {
            ValueType::F32Array
        } else if code == NT_INTEGER_ARRAY {
            ValueType::I64Array
        } else if code == NT_STRING_ARRAY {
            ValueType::StringArray
        } else {
            ValueType::Unassigned
        }
    }
}

/// A byte payload of the engine.
#[derive(Debug, Clone, PartialEq)]
pub struct NT_ValueDataRaw {
    pub data: Vec<u8>,
}

/// An array payload of the engine.
#[derive(Debug, Clone, PartialEq)]
pub struct NT_ValueDataArray<T> {
    pub arr: Vec<T>,
}

/// The payload of an engine value, one variant per member of the engine's
/// union. Booleans are the engine's integers (1 for true), strings its UTF-8
/// bytes and floating-point numbers their bit patterns.
#[derive(Debug, Clone, PartialEq)]
pub enum NT_ValueData {
    Empty,
    Boolean(i32),
    Integer(i64),
    Float(u32),
    Double(u64),
    String(Vec<u8>),
    Raw(NT_ValueDataRaw),
    BooleanArray(NT_ValueDataArray<i32>),
    DoubleArray(NT_ValueDataArray<u64>),
    FloatArray(NT_ValueDataArray<u32>),
    IntegerArray(NT_ValueDataArray<i64>),
    StringArray(NT_ValueDataArray<Vec<u8>>),
}

/// The mathematical content of an [`NT_ValueData`].
pub enum WireData {
    Empty,
    Boolean(i32),
    Integer(i64),
    Float(u32),
    Double(u64),
    String(Seq<u8>),
    Raw(Seq<u8>),
    BooleanArray(Seq<i32>),
    DoubleArray(Seq<u64>),
    FloatArray(Seq<u32>),
    IntegerArray(Seq<i64>),
    StringArray(Seq<Seq<u8>>),
}

/// The bytes of each byte string in `a`.
pub open spec fn byte_strings_view(a: Seq<Vec<u8>>) -> Seq<Seq<u8>> {
    a.map_values(|b: Vec<u8>| b@)
}

impl View for NT_ValueData {
    type V = WireData;

    open spec fn view(&self) -> WireData {
        match self {
            NT_ValueData::Empty => WireData::Empty,
            NT_ValueData::Boolean(b) => WireData::Boolean(*b),
            NT_ValueData::Integer(i) => WireData::Integer(*i),
            NT_ValueData::Float(f) => WireData::Float(*f),
            NT_ValueData::Double(f) => WireData::Double(*f),
            NT_ValueData::String(s) => WireData::String(s@),
            NT_ValueData::Raw(r) => WireData::Raw(r.data@),
            NT_ValueData::BooleanArray(a) => WireData::BooleanArray(a.arr@),
            NT_ValueData::DoubleArray(a) => WireData::DoubleArray(a.arr@),
            NT_ValueData::FloatArray(a) => WireData::FloatArray(a.arr@),
            NT_ValueData::IntegerArray(a) => WireData::IntegerArray(a.arr@),
            NT_ValueData::StringArray(a) => WireData::StringArray(byte_strings_view(a.arr@)),
        }
    }
}

/// A timestamped value in the engine's form.
#[derive(Debug, Clone, PartialEq)]
pub struct NT_Value {
    /// One of the engine's type codes.
    pub type_code: u32,
    /// Microseconds, on the engine clock.
    pub last_change: i64,
    /// Microseconds, on the server's clock.
    pub server_time: i64,
    pub data: NT_ValueData,
}

/// Whether the payload `d` is the union member that type code `code` selects.
pub open spec fn payload_matches(code: u32, d: WireData) -> bool {
    if code == NT_BOOLEAN {
        d is Boolean
    } else if code == NT_INTEGER {
        d is Integer
    } else if code == NT_FLOAT {
        d is Float
    } else if code == NT_DOUBLE {
        d is Double
    } else if code == NT_STRING {
        d is String
    } else if code == NT_RAW {
        d is Raw
    } else if code == NT_BOOLEAN_ARRAY {
        d is BooleanArray
    } else if code == NT_DOUBLE_ARRAY {
        d is DoubleArray
    } else if code == NT_FLOAT_ARRAY {
        d is FloatArray
    } else if code == NT_INTEGER_ARRAY {
        d is IntegerArray
    } else if code == NT_STRING_ARRAY {
        d is StringArray
    } else {
        code == NT_UNASSIGNED || code == NT_RPC
    }
}

impl NT_Value {
    /// A well-formed engine value: a known type code and the matching payload.
    pub open spec fn wf(&self) -> bool {
        is_type_code(self.type_code) && payload_matches(self.type_code, self.data@)
    }

    /// Whether this record is well-formed.
    pub fn is_well_formed(&self) -> (r: bool)
        ensures
            r == self.wf(),
    {
        let code = self.type_code;
        if !ValueType::is_code(code) {
            return false;
        }
        match &self.data {
            NT_ValueData::Boolean(_) if code == NT_BOOLEAN => true,
            NT_ValueData::Integer(_) if code == NT_INTEGER => true,
            NT_ValueData::Float(_) if code == NT_FLOAT => true,
            NT_ValueData::Double(_) if code == NT_DOUBLE => true,
            NT_ValueData::String(_) if code == NT_STRING => true,
            NT_ValueData::Raw(_) if code == NT_RAW => true,
            NT_ValueData::BooleanArray(_) if code == NT_BOOLEAN_ARRAY => true,
            NT_ValueData::DoubleArray(_) if code == NT_DOUBLE_ARRAY => true,
            NT_ValueData::FloatArray(_) if code == NT_FLOAT_ARRAY => true,
            NT_ValueData::IntegerArray(_) if code == NT_INTEGER_ARRAY => true,
            NT_ValueData::StringArray(_) if code == NT_STRING_ARRAY => true,
            _ => code == NT_UNASSIGNED || code == NT_RPC,
        }
    }
}

/// The engine's report of its clock synchronisation with the server.
#[allow(non_snake_case)]
#[derive(Debug, Clone, Copy, PartialEq, Eq, Structural, Hash)]
pub struct NT_TimeSyncEventData {
    /// Add to local time to estimate the server's time, in microseconds.
    pub serverTimeOffset: i64,
    /// Half the measured round trip, in microseconds.
    pub rtt2: i64,
    /// Non-zero when the offset and round trip are valid.
    pub valid: i32,
}

/// The name of what `String::from_utf8_lossy` makes of a byte sequence that
/// is not valid UTF-8.
pub uninterp spec fn utf8_lossy(b: Seq<u8>) -> Seq<char>;

/// The text the engine's bytes stand for: their UTF-8 decoding, with invalid
/// sequences replaced.
pub open spec fn text_of(b: Seq<u8>) -> Seq<char> {
    if valid_utf8(b) {
        decode_utf8(b)
    } else {
        utf8_lossy(b)
    }
}

/// Relies on `String::from_utf8_lossy`: valid UTF-8 is decoded unchanged,
/// anything else with replacement characters, as a function of the bytes.
#[verifier::external_body]
fn decode_lossy(b: &[u8]) -> (r: String)
    ensures
        r@ == (if valid_utf8(b@) {
            decode_utf8(b@)
        } else {
            utf8_lossy(b@)
        }),
{
    String::from_utf8_lossy(b).into_owned()
}

/// The text of bytes that the engine hands out (a string payload, a type
/// string), decoded as UTF-8 with invalid sequences replaced.
pub fn text_from_bytes(b: &[u8]) -> (r: String)
    ensures
        r@ == text_of(b@),
{
    decode_lossy(b)
}

/// The value a well-formed wire payload of type code `code` stands for.
pub open spec fn decode_spec(code: u32, d: WireData) -> ValueView {
    match d {
        WireData::Boolean(b) if code == NT_BOOLEAN => ValueView::Bool(b == 1),
        WireData::Integer(i) if code == NT_INTEGER => ValueView::I64(i),
        WireData::Float(f) if code == NT_FLOAT => ValueView::F32(f),
        WireData::Double(f) if code == NT_DOUBLE => ValueView::F64(f),
        WireData::String(s) if code == NT_STRING => ValueView::String(text_of(s)),
        WireData::Raw(r) if code == NT_RAW => ValueView::Raw(r),
        WireData::BooleanArray(a) if code == NT_BOOLEAN_ARRAY => ValueView::BoolArray(
            a.map_values(|x: i32| x == 1),
        ),
        WireData::DoubleArray(a) if code == NT_DOUBLE_ARRAY => ValueView::F64Array(a),
        WireData::FloatArray(a) if code == NT_FLOAT_ARRAY => ValueView::F32Array(a),
        WireData::IntegerArray(a) if code == NT_INTEGER_ARRAY => ValueView::I64Array(a),
        WireData::StringArray(a) if code == NT_STRING_ARRAY => ValueView::StringArray(
            a.map_values(|b: Seq<u8>| text_of(b)),
        ),
        _ => ValueView::Unassigned,
    }
}

/// The wire payload of a value.
pub open spec fn encode_spec(v: ValueView) -> WireData {
    match v {
        ValueView::Unassigned => WireData::Empty,
        ValueView::Bool(b) => WireData::Boolean(
            if b {
                1
            } else {
                0
            },
        ),
        ValueView::I64(i) => WireData::Integer(i),
        ValueView::F32(f) => WireData::Float(f),
        ValueView::F64(f) => WireData::Double(f),
        ValueView::String(s) => WireData::String(encode_utf8(s)),
        ValueView::Raw(r) => WireData::Raw(r),
        ValueView::BoolArray(a) => WireData::BooleanArray(
            a.map_values(
                |b: bool|
                    if b {
                        1i32
                    } else {
                        0i32
                    },
            ),
        ),
        ValueView::F64Array(a) => WireData::DoubleArray(a),
        ValueView::F32Array(a) => WireData::FloatArray(a),
        ValueView::I64Array(a) => WireData::IntegerArray(a),
        ValueView::StringArray(a) => WireData::StringArray(
            a.map_values(|s: Seq<char>| encode_utf8(s)),
        ),
    }
}

/// Each engine boolean read as `true` exactly when it is 1.
fn bools_from_wire(a: &Vec<i32>) -> (r: Vec<bool>)
    ensures
        r@ == a@.map_values(|x: i32| x == 1),
{
    let mut r: Vec<bool> = Vec::new();
    let mut i: usize = 0;
    while i < a.len()
        invariant
            i <= a@.len(),
            r@ == a@.subrange(0, i as int).map_values(|x: i32| x == 1),
        decreases a@.len() - i,
    {
        r.push(a[i] == 1);
        i = i + 1;
        assert(a@.subrange(0, i as int) =~= a@.subrange(0, i - 1) + seq![a@[i - 1]]);
    }
    assert(a@.subrange(0, a@.len() as int) =~= a@);
    r
}

/// Each boolean as the engine's integer: 1 for true, 0 for false.
fn bools_to_wire(a: &Vec<bool>) -> (r: Vec<i32>)
    ensures
        r@ == a@.map_values(
            |b: bool|
                if b {
                    1i32
                } else {
                    0i32
                },
        ),
{
    let mut r: Vec<i32> = Vec::new();
    let mut i: usize = 0;
    while i < a.len()
        invariant
            i <= a@.len(),
            r@ == a@.subrange(0, i as int).map_values(
                |b: bool|
                    if b {
                        1i32
                    } else {
                        0i32
                    },
            ),
        decreases a@.len() - i,
    {
        let x: i32 = if a[i] {
            1
        } else {
            0
        };
        r.push(x);
        i = i + 1;
        assert(a@.subrange(0, i as int) =~= a@.subrange(0, i - 1) + seq![a@[i - 1]]);
    }
    assert(a@.subrange(0, a@.len() as int) =~= a@);
    r
}

/// The UTF-8 bytes of a string.
fn bytes_of_text(s: &String) -> (r: Vec<u8>)
    ensures
        r@ == encode_utf8(s@),
{
    slice_to_vec(s.as_str().as_bytes())
}

/// Each byte string decoded as text.
fn texts_from_wire(a: &Vec<Vec<u8>>) -> (r: Vec<String>)
    ensures
        strings_view(r@) == byte_strings_view(a@).map_values(|b: Seq<u8>| text_of(b)),
{
    let mut r: Vec<String> = Vec::new();
    let mut i: usize = 0;
    while i < a.len()
        invariant
            i <= a@.len(),
            r@.len() == i,
            forall|j: int| 0 <= j < i ==> (#[trigger] r@[j])@ == text_of(a@[j]@),
        decreases a@.len() - i,
    {
        let t = text_from_bytes(a[i].as_slice());
        r.push(t);
        i = i + 1;
    }
    assert(strings_view(r@) =~= byte_strings_view(a@).map_values(|b: Seq<u8>| text_of(b)));
    r
}

/// Each string as its UTF-8 bytes.
fn texts_to_wire(a: &Vec<String>) -> (r: Vec<Vec<u8>>)
    ensures
        byte_strings_view(r@) == strings_view(a@).map_values(|s: Seq<char>| encode_utf8(s)),
{
    let mut r: Vec<Vec<u8>> = Vec::new();
    let mut i: usize = 0;
    while i < a.len()
        invariant
            i <= a@.len(),
            r@.len() == i,
            forall|j: int| 0 <= j < i ==> (#[trigger] r@[j])@ == encode_utf8(a@[j]@),
        decreases a@.len() - i,
    {
        let b = bytes_of_text(&a[i]);
        r.push(b);
        i = i + 1;
    }
    assert(byte_strings_view(r@) =~= strings_view(a@).map_values(|s: Seq<char>| encode_utf8(s)));
    r
}

impl Value {
    /// This value as the engine's payload.
    pub fn to_wire(self) -> (r: NT_ValueData)
        ensures
            r@ == encode_spec(self@),
    {
        match self {
            Value::Unassigned => NT_ValueData::Empty,
            Value::Bool(b) => NT_ValueData::Boolean(
                if b {
                    1
                } else {
                    0
                },
            ),
            Value::I64(i) => NT_ValueData::Integer(i),
            Value::F32(f) => NT_ValueData::Float(f),
            Value::F64(f) => NT_ValueData::Double(f),
            Value::String(s) => NT_ValueData::String(bytes_of_text(&s)),
            Value::Raw(data) => NT_ValueData::Raw(NT_ValueDataRaw { data }),
            Value::BoolArray(a) => NT_ValueData::BooleanArray(
                NT_ValueDataArray { arr: bools_to_wire(&a) },
            ),
            Value::F64Array(arr) => NT_ValueData::DoubleArray(NT_ValueDataArray { arr }),
            Value::F32Array(arr) => NT_ValueData::FloatArray(NT_ValueDataArray { arr }),
            Value::I64Array(arr) => NT_ValueData::IntegerArray(NT_ValueDataArray { arr }),
            Value::StringArray(a) => NT_ValueData::StringArray(
                NT_ValueDataArray { arr: texts_to_wire(&a) },
            ),
        }
    }

    /// The value an engine payload of type code `code` stands for.
    pub fn from_wire(code: u32, data: NT_ValueData) -> (r: Value)
        requires
            is_type_code(code),
            payload_matches(code, data@),
        ensures
            r@ == decode_spec(code, data@),
    {
        match data {
            NT_ValueData::Boolean(b) if code == NT_BOOLEAN => Value::Bool(b == 1),
            NT_ValueData::Integer(i) if code == NT_INTEGER => Value::I64(i),
            NT_ValueData::Float(f) if code == NT_FLOAT => Value::F32(f),
            NT_ValueData::Double(f) if code == NT_DOUBLE => Value::F64(f),
            NT_ValueData::String(s) if code == NT_STRING => Value::String(
                text_from_bytes(s.as_slice()),
            ),
            NT_ValueData::Raw(r) if code == NT_RAW => Value::Raw(r.data),
            NT_ValueData::BooleanArray(a) if code == NT_BOOLEAN_ARRAY => Value::BoolArray(
                bools_from_wire(&a.arr),
            ),
            NT_ValueData::DoubleArray(a) if code == NT_DOUBLE_ARRAY => Value::F64Array(a.arr),
            NT_ValueData::FloatArray(a) if code == NT_FLOAT_ARRAY => Value::F32Array(a.arr),
            NT_ValueData::IntegerArray(a) if code == NT_INTEGER_ARRAY => Value::I64Array(a.arr),
            NT_ValueData::StringArray(a) if code == NT_STRING_ARRAY => Value::StringArray(
                texts_from_wire(&a.arr),
            ),
            _ => Value::Unassigned,
        }
    }
}

impl RawValue {
    /// The timestamped value an engine record stands for. The engine's signed
    /// microsecond counts are read as unsigned.
    pub fn from_raw(v: NT_Value) -> (r: RawValue)
        requires
            v.wf(),
        ensures
            r.data@ == decode_spec(v.type_code, v.data@),
            r.last_change.micros_spec() == #[verifier::truncate] (v.last_change as u64),
            r.server_time.micros_spec() == #[verifier::truncate] (v.server_time as u64),
    {
        let last_change = NetworkTablesInstant::from_micros(#[verifier::truncate] (v.last_change as u64));
        let server_time = NetworkTablesInstant::from_micros(#[verifier::truncate] (v.server_time as u64));
        let data = Value::from_wire(v.type_code, v.data);
        RawValue { data, last_change, server_time }
    }

    /// This timestamped value as an engine record.
    pub fn to_raw(self) -> (r: NT_Value)
        ensures
            r.type_code == type_code_spec(self.data@.value_type()),
            r.data@ == encode_spec(self.data@),
            r.last_change == #[verifier::truncate] (self.last_change.micros_spec() as i64),
            r.server_time == #[verifier::truncate] (self.server_time.micros_spec() as i64),
    {
        let type_code = self.data.value_type().to_code();
        let last_change = #[verifier::truncate] (self.last_change.as_micros() as i64);
        let server_time = #[verifier::truncate] (self.server_time.as_micros() as i64);
        NT_Value { type_code, last_change, server_time, data: self.data.to_wire() }
    }
}

/// Reading a microsecond count as the engine's signed count and back loses nothing.
proof fn lemma_signed_round_trip(x: u64)
    ensures
        #[verifier::truncate] ((#[verifier::truncate] (x as i64)) as u64) == x,
{
    assert(#[verifier::truncate] ((#[verifier::truncate] (x as i64)) as u64) == x) by (bit_vector);
}

/// Converting a value to the engine's form and back gives the same value:
/// the record is well-formed, the payload decodes to the value it was made
/// from (bit for bit for numbers, character for character for text), and the
/// timestamps come back unchanged.
pub proof fn lemma_wire_round_trip(v: ValueView, last_change: u64, server_time: u64)
    ensures
        is_type_code(type_code_spec(v.value_type())),
        payload_matches(type_code_spec(v.value_type()), encode_spec(v)),
        decode_spec(type_code_spec(v.value_type()), encode_spec(v)) == v,
        #[verifier::truncate] ((#[verifier::truncate] (last_change as i64)) as u64) == last_change,
        #[verifier::truncate] ((#[verifier::truncate] (server_time as i64)) as u64) == server_time,
{
    lemma_signed_round_trip(last_change);
    lemma_signed_round_trip(server_time);
    match v {
        ValueView::String(s) => {
            assert(text_of(encode_utf8(s)) == s);
        },
        ValueView::BoolArray(a) => {
            let w = a.map_values(
                |b: bool|
                    if b {
                        1i32
                    } else {
                        0i32
                    },
            );
            assert(w.map_values(|x: i32| x == 1) =~= a);
        },
        ValueView::StringArray(a) => {
            let w = a.map_values(|s: Seq<char>| encode_utf8(s));
            assert forall|i: int| 0 <= i < a.len() implies text_of(#[trigger] w[i]) == a[i] by {
                assert(text_of(encode_utf8(a[i])) == a[i]);
            }
            assert(w.map_values(|b: Seq<u8>| text_of(b)) =~= a);
        },
        _ => {},
    }
}

} // verus!
