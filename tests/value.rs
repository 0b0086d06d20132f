use lagan::instant::NetworkTablesInstant;
use lagan::value::{RawValue, Value, ValueType};
use lagan::wire::{
    text_from_bytes, NT_Value, NT_ValueData, NT_ValueDataArray, NT_BOOLEAN, NT_BOOLEAN_ARRAY,
    NT_RPC, NT_STRING, NT_UNASSIGNED,
};

fn stamped(data: Value) -> RawValue {
    RawValue {
        data,
        last_change: NetworkTablesInstant::from_micros(11),
        server_time: NetworkTablesInstant::from_micros(22),
    }
}

fn round_trip(v: Value) -> RawValue {
    RawValue::from_raw(stamped(v).to_raw())
}

fn all_kinds() -> Vec<Value> {
    vec![
        Value::Bool(true),
        Value::Bool(false),
        Value::I64(-42),
        Value::F32(1.5f32.to_bits()),
        Value::F32(f32::NAN.to_bits()),
        Value::F64(3.14f64.to_bits()),
        Value::F64((-0.0f64).to_bits()),
        Value::String("héllo wörld".to_string()),
        Value::String(String::new()),
        Value::Raw(vec![0, 1, 255]),
        Value::BoolArray(vec![true, false, true]),
        Value::F64Array(vec![1.0f64.to_bits(), f64::INFINITY.to_bits()]),
        Value::F32Array(vec![2.5f32.to_bits()]),
        Value::I64Array(vec![i64::MIN, 0, i64::MAX]),
        Value::StringArray(vec!["a".to_string(), "ü€".to_string(), String::new()]),
    ]
}

#[test]
fn value_type_of_each_variant() {
    assert_eq!(Value::Unassigned.value_type(), ValueType::Unassigned);
    assert_eq!(Value::Bool(true).value_type(), ValueType::Bool);
    assert_eq!(Value::I64(1).value_type(), ValueType::I64);
    assert_eq!(Value::F32(0).value_type(), ValueType::F32);
    assert_eq!(Value::F64(0).value_type(), ValueType::F64);
    assert_eq!(Value::String(String::new()).value_type(), ValueType::String);
    assert_eq!(Value::Raw(vec![]).value_type(), ValueType::Raw);
    assert_eq!(Value::BoolArray(vec![]).value_type(), ValueType::BoolArray);
    assert_eq!(Value::F64Array(vec![]).value_type(), ValueType::F64Array);
    assert_eq!(Value::F32Array(vec![]).value_type(), ValueType::F32Array);
    assert_eq!(Value::I64Array(vec![]).value_type(), ValueType::I64Array);
    assert_eq!(Value::StringArray(vec![]).value_type(), ValueType::StringArray);
}

#[test]
fn wire_round_trip_every_kind() {
    for v in all_kinds() {
        let back = round_trip(v.clone());
        assert_eq!(back, stamped(v));
    }
}

#[test]
fn wire_round_trip_keeps_float_bits() {
    let bits = f64::NAN.to_bits() | 1;
    assert_eq!(round_trip(Value::F64(bits)).data, Value::F64(bits));
}

#[test]
fn wire_form_of_bools_and_strings() {
    let raw = stamped(Value::BoolArray(vec![true, false])).to_raw();
    assert_eq!(raw.type_code, NT_BOOLEAN_ARRAY);
    assert_eq!(raw.data, NT_ValueData::BooleanArray(NT_ValueDataArray { arr: vec![1, 0] }));
    let raw = stamped(Value::String("é".to_string())).to_raw();
    assert_eq!(raw.type_code, NT_STRING);
    assert_eq!(raw.data, NT_ValueData::String(vec![0xc3, 0xa9]));
    assert_eq!(raw.last_change, 11);
    assert_eq!(raw.server_time, 22);
}

#[test]
fn wire_bool_is_true_only_for_one() {
    let v = NT_Value {
        type_code: NT_BOOLEAN,
        last_change: 0,
        server_time: 0,
        data: NT_ValueData::Boolean(2),
    };
    assert_eq!(RawValue::from_raw(v).data, Value::Bool(false));
}

#[test]
fn wire_rpc_and_unassigned_read_as_unassigned() {
    for code in [NT_RPC, NT_UNASSIGNED] {
        let v = NT_Value { type_code: code, last_change: 5, server_time: 6, data: NT_ValueData::Empty };
        let r = RawValue::from_raw(v);
        assert_eq!(r.data, Value::Unassigned);
        assert_eq!(r.last_change.as_micros(), 5);
        assert_eq!(r.server_time.as_micros(), 6);
    }
}

#[test]
fn wire_invalid_utf8_is_replaced() {
    let v = NT_Value {
        type_code: NT_STRING,
        last_change: 0,
        server_time: 0,
        data: NT_ValueData::String(vec![b'a', 0xff, b'b']),
    };
    assert_eq!(RawValue::from_raw(v).data, Value::String("a\u{fffd}b".to_string()));
    assert_eq!(text_from_bytes(&[0xe2, 0x82, 0xac]), "€");
}

#[test]
fn value_type_codes_round_trip() {
    let types = [
        ValueType::Unassigned,
        ValueType::Bool,
        ValueType::I64,
        ValueType::F32,
        ValueType::F64,
        ValueType::String,
        ValueType::Raw,
        ValueType::BoolArray,
        ValueType::F64Array,
        ValueType::F32Array,
        ValueType::I64Array,
        ValueType::StringArray,
    ];
    for t in types {
        assert_eq!(ValueType::from_code(t.to_code()), t);
    }
    assert_eq!(ValueType::I64.to_code(), 0x100);
    assert_eq!(ValueType::from_code(NT_RPC), ValueType::Unassigned);
}

#[test]
fn typed_projections() {
    assert_eq!(Value::F64(3.14f64.to_bits()).into_f64().map(f64::from_bits), Some(3.14));
    assert_eq!(Value::F32(1.0f32.to_bits()).into_f64(), None);
    assert_eq!(Value::Bool(true).into_bool(), Some(true));
    assert_eq!(Value::Unassigned.into_bool(), None);
    assert_eq!(Value::I64(3).into_i64(), Some(3));
    assert_eq!(Value::F32(7).into_f32(), Some(7));
    assert_eq!(Value::String("s".to_string()).into_string(), Some("s".to_string()));
    assert_eq!(Value::Raw(vec![1]).into_raw(), Some(vec![1]));
    assert_eq!(Value::Raw(vec![1]).into_string(), None);
    assert_eq!(Value::BoolArray(vec![true]).into_bool_array(), Some(vec![true]));
    assert_eq!(Value::F64Array(vec![1]).into_f64_array(), Some(vec![1]));
    assert_eq!(Value::F32Array(vec![2]).into_f32_array(), Some(vec![2]));
    assert_eq!(Value::I64Array(vec![3]).into_i64_array(), Some(vec![3]));
    assert_eq!(Value::StringArray(vec!["x".to_string()]).into_string_array(), Some(vec!["x".to_string()]));
    assert_eq!(Value::I64Array(vec![3]).into_f64_array(), None);
}

#[test]
fn wire_well_formedness() {
    assert!(ValueType::is_code(NT_STRING));
    assert!(ValueType::is_code(NT_RPC));
    assert!(!ValueType::is_code(0x3));
    let good = NT_Value { type_code: NT_BOOLEAN, last_change: 0, server_time: 0, data: NT_ValueData::Boolean(1) };
    assert!(good.is_well_formed());
    let mismatched = NT_Value { type_code: NT_STRING, last_change: 0, server_time: 0, data: NT_ValueData::Boolean(1) };
    assert!(!mismatched.is_well_formed());
    let unknown = NT_Value { type_code: 0x1000, last_change: 0, server_time: 0, data: NT_ValueData::Empty };
    assert!(!unknown.is_well_formed());
    let rpc = NT_Value { type_code: NT_RPC, last_change: 0, server_time: 0, data: NT_ValueData::Integer(3) };
    assert!(rpc.is_well_formed());
}
