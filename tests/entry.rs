use lagan::entry::{is_assigned, is_unassigned, set_flags, set_value};
use lagan::flags::ValueFlags;
use lagan::instant::NetworkTablesInstant;
use lagan::value::{RawValue, Value, ValueType};
use lagan::NetworkTablesError;

fn fresh() -> RawValue {
    RawValue {
        data: Value::Unassigned,
        last_change: NetworkTablesInstant::from_micros(0),
        server_time: NetworkTablesInstant::from_micros(7),
    }
}

fn at(m: u64) -> NetworkTablesInstant {
    NetworkTablesInstant::from_micros(m)
}

#[test]
fn entry_first_write_pins_type() {
    let mut e = fresh();
    assert_eq!(set_value(&mut e, Value::F64(3.14f64.to_bits()), true, at(1)), Ok(()));
    assert_eq!(e.data.value_type(), ValueType::F64);
    assert_eq!(set_value(&mut e, Value::F64(2.0f64.to_bits()), true, at(2)), Ok(()));
    assert_eq!(e.data, Value::F64(2.0f64.to_bits()));
    let before = e.clone();
    assert_eq!(
        set_value(&mut e, Value::Bool(true), true, at(3)),
        Err(NetworkTablesError::InvalidType {
            current_type: ValueType::F64,
            given_type: ValueType::Bool
        })
    );
    assert_eq!(e, before);
}

#[test]
fn entry_write_stamps_server_time_only_as_server() {
    let mut e = fresh();
    set_value(&mut e, Value::I64(1), false, at(40)).unwrap();
    assert_eq!(e.last_change.as_micros(), 40);
    assert_eq!(e.server_time.as_micros(), 7);
    set_value(&mut e, Value::I64(2), true, at(50)).unwrap();
    assert_eq!(e.last_change.as_micros(), 50);
    assert_eq!(e.server_time.as_micros(), 50);
}

#[test]
fn entry_unassigned_write_always_fails() {
    let mut e = fresh();
    let before = e.clone();
    assert_eq!(set_value(&mut e, Value::Unassigned, true, at(1)), Err(NetworkTablesError::SetToUnassigned));
    assert_eq!(e, before);
    set_value(&mut e, Value::String("x".to_string()), false, at(2)).unwrap();
    let before = e.clone();
    assert_eq!(set_value(&mut e, Value::Unassigned, false, at(3)), Err(NetworkTablesError::SetToUnassigned));
    assert_eq!(e, before);
}

#[test]
fn entry_flags_need_a_written_value() {
    let mut e = fresh();
    let flags = ValueFlags::persistent();
    assert_eq!(set_flags(e.data.value_type(), flags), Err(NetworkTablesError::UnassignedFlags));
    set_value(&mut e, Value::Bool(true), true, at(1)).unwrap();
    assert_eq!(set_flags(e.data.value_type(), flags), Ok(1));
    assert_eq!(set_flags(ValueType::Raw, ValueFlags::retained().union(ValueFlags::uncached())), Ok(6));
}

#[test]
fn entry_assigned_queries() {
    assert!(is_unassigned(ValueType::Unassigned));
    assert!(!is_assigned(ValueType::Unassigned));
    assert!(is_assigned(ValueType::StringArray));
    assert!(!is_unassigned(ValueType::I64));
}
