//! The typed value model: value types, values, timestamped values and flags.

use vstd::prelude::*;
use crate::instant::NetworkTablesInstant;

verus! {

/// The type of a value stored in the table.
#[derive(Debug, Clone, Copy, PartialEq, Eq, Structural, Hash)]
pub enum ValueType {
    Unassigned,
    Bool,
    I64,
    F32,
    F64,
    String,
    Raw,
    BoolArray,
    F64Array,
    F32Array,
    I64Array,
    StringArray,
}

/// A value of one of the table's types, or no value at all.
///
/// Floating-point payloads are held as their IEEE-754 bit patterns
/// (`f32::to_bits` / `f64::to_bits`), so that a value always compares and
/// round-trips bit for bit.
#[derive(Debug, Clone, PartialEq)]
pub enum Value {
    Unassigned,
    Bool(bool),
    I64(i64),
    /// The bits of an `f32`.
    F32(u32),
    /// The bits of an `f64`.
    F64(u64),
    String(String),
    Raw(Vec<u8>),
    BoolArray(Vec<bool>),
    /// The bits of each `f64`.
    F64Array(Vec<u64>),
    /// The bits of each `f32`.
    F32Array(Vec<u32>),
    I64Array(Vec<i64>),
    StringArray(Vec<String>),
}

/// The mathematical content of a [`Value`].
pub enum ValueView {
    Unassigned,
    Bool(bool),
    I64(i64),
    F32(u32),
    F64(u64),
    String(Seq<char>),
    Raw(Seq<u8>),
    BoolArray(Seq<bool>),
    F64Array(Seq<u64>),
    F32Array(Seq<u32>),
    I64Array(Seq<i64>),
    StringArray(Seq<Seq<char>>),
}

impl View for Value {
    type V = ValueView;

    open spec fn view(&self) -> ValueView {
        match self {
            Value::Unassigned => ValueView::Unassigned,
            Value::Bool(b) => ValueView::Bool(*b),
            Value::I64(i) => ValueView::I64(*i),
            Value::F32(f) => ValueView::F32(*f),
            Value::F64(f) => ValueView::F64(*f),
            Value::String(s) => ValueView::String(s@),
            Value::Raw(b) => ValueView::Raw(b@),
            Value::BoolArray(a) => ValueView::BoolArray(a@),
            Value::F64Array(a) => ValueView::F64Array(a@),
            Value::F32Array(a) => ValueView::F32Array(a@),
            Value::I64Array(a) => ValueView::I64Array(a@),
            Value::StringArray(a) => ValueView::StringArray(strings_view(a@)),
        }
    }
}

/// The characters of each string in `a`.
pub open spec fn strings_view(a: Seq<String>) -> Seq<Seq<char>> {
    a.map_values(|s: String| s@)
}

impl ValueView {
    /// The type tag of a value.
    pub open spec fn value_type(self) -> ValueType {
        match self {
            ValueView::Unassigned => ValueType::Unassigned,
            ValueView::Bool(_) => ValueType::Bool,
            ValueView::I64(_) => ValueType::I64,
            ValueView::F32(_) => ValueType::F32,
            ValueView::F64(_) => ValueType::F64,
            ValueView::String(_) => ValueType::String,
            ValueView::Raw(_) => ValueType::Raw,
            ValueView::BoolArray(_) => ValueType::BoolArray,
            ValueView::F64Array(_) => ValueType::F64Array,
            ValueView::F32Array(_) => ValueType::F32Array,
            ValueView::I64Array(_) => ValueType::I64Array,
            ValueView::StringArray(_) => ValueType::StringArray,
        }
    }
}

impl Value {
    /// The type tag of this value.
    pub fn value_type(&self) -> (r: ValueType)
        ensures
            r == self@.value_type(),
    {
        match self {
            Value::Unassigned => ValueType::Unassigned,
            Value::Bool(_) => ValueType::Bool,
            Value::I64(_) => ValueType::I64,
            Value::F32(_) => ValueType::F32,
            Value::F64(_) => ValueType::F64,
            Value::String(_) => ValueType::String,
            Value::Raw(_) => ValueType::Raw,
            Value::BoolArray(_) => ValueType::BoolArray,
            Value::F64Array(_) => ValueType::F64Array,
            Value::F32Array(_) => ValueType::F32Array,
            Value::I64Array(_) => ValueType::I64Array,
            Value::StringArray(_) => ValueType::StringArray,
        }
    }

    /// The payload if this is a `bool`, `None` for any other type.
    pub fn into_bool(self) -> (r: Option<bool>)
        ensures
            r == match self {
                Value::Bool(x) => Some(x),
                _ => None::<bool>,
            },
    {
        match self {
            Value::Bool(x) => Some(x),
            _ => None,
        }
    }

    /// The payload if this is an `i64`, `None` for any other type.
    pub fn into_i64(self) -> (r: Option<i64>)
        ensures
            r == match self {
                Value::I64(x) => Some(x),
                _ => None::<i64>,
            },
    {
        match self {
            Value::I64(x) => Some(x),
            _ => None,
        }
    }

    /// The payload if this is the bits of an `f32`, `None` for any other type.
    pub fn into_f32(self) -> (r: Option<u32>)
        ensures
            r == match self {
                Value::F32(x) => Some(x),
                _ => None::<u32>,
            },
    {
        match self {
            Value::F32(x) => Some(x),
            _ => None,
        }
    }

    /// The payload if this is the bits of an `f64`, `None` for any other type.
    pub fn into_f64(self) -> (r: Option<u64>)
        ensures
            r == match self {
                Value::F64(x) => Some(x),
                _ => None::<u64>,
            },
    {
        match self {
            Value::F64(x) => Some(x),
            _ => None,
        }
    }

    /// The payload if this is a string, `None` for any other type.
    pub fn into_string(self) -> (r: Option<String>)
        ensures
            r == match self {
                Value::String(x) => Some(x),
                _ => None::<String>,
            },
    {
        match self {
            Value::String(x) => Some(x),
            _ => None,
        }
    }

    /// The payload if this is raw bytes, `None` for any other type.
    pub fn into_raw(self) -> (r: Option<Vec<u8>>)
        ensures
            r == match self {
                Value::Raw(x) => Some(x),
                _ => None::<Vec<u8>>,
            },
    {
        match self {
            Value::Raw(x) => Some(x),
            _ => None,
        }
    }

    /// The payload if this is a `bool` array, `None` for any other type.
    pub fn into_bool_array(self) -> (r: Option<Vec<bool>>)
        ensures
            r == match self {
                Value::BoolArray(x) => Some(x),
                _ => None::<Vec<bool>>,
            },
    {
        match self {
            Value::BoolArray(x) => Some(x),
            _ => None,
        }
    }

    /// The payload if this is an `f64` array (bits), `None` for any other type.
    pub fn into_f64_array(self) -> (r: Option<Vec<u64>>)
        ensures
            r == match self {
                Value::F64Array(x) => Some(x),
                _ => None::<Vec<u64>>,
            },
    {
        match self {
            Value::F64Array(x) => Some(x),
            _ => None,
        }
    }

    /// The payload if this is an `f32` array (bits), `None` for any other type.
    pub fn into_f32_array(self) -> (r: Option<Vec<u32>>)
        ensures
            r == match self {
                Value::F32Array(x) => Some(x),
                _ => None::<Vec<u32>>,
            },
    {
        match self {
            Value::F32Array(x) => Some(x),
            _ => None,
        }
    }

    /// The payload if this is an `i64` array, `None` for any other type.
    pub fn into_i64_array(self) -> (r: Option<Vec<i64>>)
        ensures
            r == match self {
                Value::I64Array(x) => Some(x),
                _ => None::<Vec<i64>>,
            },
    {
        match self {
            Value::I64Array(x) => Some(x),
            _ => None,
        }
    }

    /// The payload if this is a string array, `None` for any other type.
    pub fn into_string_array(self) -> (r: Option<Vec<String>>)
        ensures
            r == match self {
                Value::StringArray(x) => Some(x),
                _ => None::<Vec<String>>,
            },
    {
        match self {
            Value::StringArray(x) => Some(x),
            _ => None,
        }
    }
}

/// A value together with its timestamps.
#[derive(Debug, Clone, PartialEq)]
pub struct RawValue {
    pub data: Value,
    /// When the value was last written, by any writer.
    pub last_change: NetworkTablesInstant,
    /// The time of the last write as the server sees it.
    pub server_time: NetworkTablesInstant,
}

} // verus!
