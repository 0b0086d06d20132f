use lagan::flags::ValueFlags;
use lagan::topic::{latest_value, publish_value, updates_from_queue, values_of, TopicProperties};
use lagan::value::{RawValue, Value, ValueType};
use lagan::instant::NetworkTablesInstant;
use lagan::wire::{NT_Value, NT_ValueData, NT_DOUBLE};
use lagan::NetworkTablesError;

fn queued(x: f64, t: i64) -> NT_Value {
    NT_Value { type_code: NT_DOUBLE, last_change: t, server_time: t, data: NT_ValueData::Double(x.to_bits()) }
}

#[test]
fn topic_persistent_flag_round_trip() {
    let props = TopicProperties::from_flags(ValueFlags::persistent());
    assert!(props.persistent);
    assert!(props.cached);
    assert!(!props.retained);
    let back = props.flags();
    assert!(back.contains(ValueFlags::persistent()));
    assert!(!back.contains(ValueFlags::retained()));
    assert!(!back.contains(ValueFlags::uncached()));
    assert_eq!(back, ValueFlags::persistent());
}

#[test]
fn topic_uncached_flag_inverts_cached() {
    let props = TopicProperties::from_flags(ValueFlags::uncached());
    assert!(!props.cached);
    assert!(props.flags().contains(ValueFlags::uncached()));
    let cached = TopicProperties { persistent: false, cached: true, retained: true };
    assert!(!cached.flags().contains(ValueFlags::uncached()));
    assert_eq!(cached.flags().bits(), 2);
}

#[test]
fn topic_every_flag_combination_round_trips() {
    for bits in 0u32..8 {
        let flags = ValueFlags::from_bits_retain(bits);
        assert_eq!(TopicProperties::from_flags(flags).flags(), flags);
    }
}

#[test]
fn subscriber_queue_keeps_order() {
    let drained = updates_from_queue(vec![queued(1.0, 1), queued(2.0, 2), queued(3.0, 3)]).unwrap();
    let values: Vec<Value> = drained.iter().map(|u| u.data.clone()).collect();
    assert_eq!(
        values,
        vec![Value::F64(1.0f64.to_bits()), Value::F64(2.0f64.to_bits()), Value::F64(3.0f64.to_bits())]
    );
    let stamps: Vec<u64> = drained.iter().map(|u| u.last_change.as_micros()).collect();
    assert_eq!(stamps, vec![1, 2, 3]);
}

#[test]
fn subscriber_empty_queue_is_none() {
    assert!(updates_from_queue(Vec::new()).is_none());
}

#[test]
fn subscriber_value_is_last_of_batch() {
    let drained = updates_from_queue(vec![queued(1.0, 1), queued(2.0, 2), queued(3.0, 3)]).unwrap();
    assert_eq!(latest_value(drained), Value::F64(3.0f64.to_bits()));
}

#[test]
fn subscriber_values_drop_timestamps() {
    let updates = vec![
        RawValue {
            data: Value::I64(4),
            last_change: NetworkTablesInstant::from_micros(1),
            server_time: NetworkTablesInstant::from_micros(1),
        },
        RawValue {
            data: Value::I64(5),
            last_change: NetworkTablesInstant::from_micros(2),
            server_time: NetworkTablesInstant::from_micros(2),
        },
    ];
    assert_eq!(values_of(updates), vec![Value::I64(4), Value::I64(5)]);
}

#[test]
fn publisher_checks_declared_type() {
    assert_eq!(
        publish_value(ValueType::F64, Value::F32(0)),
        Err(NetworkTablesError::InvalidType { current_type: ValueType::F64, given_type: ValueType::F32 })
    );
    assert_eq!(publish_value(ValueType::F64, Value::Unassigned), Err(NetworkTablesError::SetToUnassigned));
    assert_eq!(
        publish_value(ValueType::BoolArray, Value::BoolArray(vec![false, true])),
        Ok(NT_ValueData::BooleanArray(lagan::wire::NT_ValueDataArray { arr: vec![0, 1] }))
    );
    assert_eq!(publish_value(ValueType::I64, Value::I64(9)), Ok(NT_ValueData::Integer(9)));
}
