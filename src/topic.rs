//! Topics, publishers and subscribers: flag properties, publisher type checks
//! and the handling of drained update queues.

use vstd::prelude::*;
use crate::flags::{has_bits, ValueFlags, PERSISTENT_BIT, RETAINED_BIT, UNCACHED_BIT};
use crate::value::{RawValue, Value, ValueType};
use crate::wire::{decode_spec, encode_spec, NT_Value, NT_ValueData};
use crate::NetworkTablesError;

verus! {

/// The three independent properties by which the engine keeps a topic's flags.
#[derive(Debug, Clone, Copy, PartialEq, Eq, Structural, Hash)]
pub struct TopicProperties {
    pub persistent: bool,
    /// The engine's latest-value cache; the opposite of the uncached flag.
    pub cached: bool,
    pub retained: bool,
}

/// The flag mask for a topic's three properties.
pub open spec fn flags_of_properties(p: TopicProperties) -> u32 {
    (if p.persistent {
        PERSISTENT_BIT
    } else {
        0u32
    }) | (if p.retained {
        RETAINED_BIT
    } else {
        0u32
    }) | (if p.cached {
        0u32
    } else {
        UNCACHED_BIT
    })
}

impl TopicProperties {
    /// The properties that carry `flags` to the engine.
    pub fn from_flags(flags: ValueFlags) -> (r: TopicProperties)
        ensures
            r.persistent == has_bits(flags@, PERSISTENT_BIT),
            r.retained == has_bits(flags@, RETAINED_BIT),
            r.cached == !has_bits(flags@, UNCACHED_BIT),
    {
        TopicProperties {
            persistent: flags.contains(ValueFlags::persistent()),
            cached: !flags.contains(ValueFlags::uncached()),
            retained: flags.contains(ValueFlags::retained()),
        }
    }

    /// The flags these properties stand for.
    pub fn flags(&self) -> (r: ValueFlags)
        ensures
            r@ == flags_of_properties(*self),
    {
        let mut flags = ValueFlags::empty();
        if self.persistent {
            flags.insert(ValueFlags::persistent());
        }
        if !self.cached {
            flags.insert(ValueFlags::uncached());
        }
        if self.retained {
            flags.insert(ValueFlags::retained());
        }
        proof {
            let p = self.persistent;
            let c = self.cached;
            let t = self.retained;
            assert(flags@ == flags_of_properties(*self)) by {
                if p {
                    if t {
                        assert(0u32 | 1u32 | 4u32 | 2u32 == 1u32 | 2u32 | 4u32) by (bit_vector);
                        assert(0u32 | 1u32 | 2u32 == 1u32 | 2u32 | 0u32) by (bit_vector);
                    } else {
                        assert(0u32 | 1u32 | 4u32 == 1u32 | 0u32 | 4u32) by (bit_vector);
                        assert(0u32 | 1u32 == 1u32 | 0u32 | 0u32) by (bit_vector);
                    }
                } else {
                    if t {
                        assert(0u32 | 4u32 | 2u32 == 0u32 | 2u32 | 4u32) by (bit_vector);
                        assert(0u32 | 2u32 == 0u32 | 2u32 | 0u32) by (bit_vector);
                    } else {
                        assert(0u32 | 4u32 == 0u32 | 0u32 | 4u32) by (bit_vector);
                        assert(0u32 == 0u32 | 0u32 | 0u32) by (bit_vector);
                    }
                }
            }
        }
        flags
    }
}

/// Topic flags round-trip: flags made only of the persistent, retained and
/// uncached bits, carried to the engine's three properties and read back, are
/// the same flags.
pub proof fn lemma_topic_flags_round_trip(flags: u32)
    requires
        flags & !(PERSISTENT_BIT | RETAINED_BIT | UNCACHED_BIT) == 0,
    ensures
        flags_of_properties(
            TopicProperties {
                persistent: has_bits(flags, PERSISTENT_BIT),
                cached: !has_bits(flags, UNCACHED_BIT),
                retained: has_bits(flags, RETAINED_BIT),
            },
        ) == flags,
{
    let f = flags;
    assert(f & !(1u32 | 2u32 | 4u32) == 0 ==> ((if f & 1 == 1 { 1u32 } else { 0u32 }) | (if f & 2
        == 2 { 2u32 } else { 0u32 }) | (if f & 4 == 4 { 4u32 } else { 0u32 })) == f) by (bit_vector);
}

/// Flags read back from a topic's properties hold the persistent and retained
/// flags exactly when those properties are on, and the uncached flag exactly
/// when the cached property is off.
pub proof fn lemma_flags_of_properties(p: TopicProperties)
    ensures
        has_bits(flags_of_properties(p), PERSISTENT_BIT) == p.persistent,
        has_bits(flags_of_properties(p), RETAINED_BIT) == p.retained,
        has_bits(flags_of_properties(p), UNCACHED_BIT) == !p.cached,
{
    let a: u32 = if p.persistent {
        1u32
    } else {
        0u32
    };
    let b: u32 = if p.retained {
        2u32
    } else {
        0u32
    };
    let c: u32 = if p.cached {
        0u32
    } else {
        4u32
    };
    assert((a == 0 || a == 1) && (b == 0 || b == 2) && (c == 0 || c == 4) ==> ((a | b | c) & 4 == 4)
        == (c == 4) && ((a | b | c) & 1 == 1) == (a == 1) && ((a | b | c) & 2 == 2) == (b == 2))
        by (bit_vector);
}

/// The result of a publisher declared with type `declared` writing a value of
/// type `given`.
pub open spec fn publish_outcome(declared: ValueType, given: ValueType) -> Result<(), NetworkTablesError> {
    if given == ValueType::Unassigned {
        Err(NetworkTablesError::SetToUnassigned)
    } else if given != declared {
        Err(NetworkTablesError::InvalidType { current_type: declared, given_type: given })
    } else {
        Ok(())
    }
}

/// Checks a publisher's write of `value` against the type it was declared
/// with, and gives the payload for the engine's setter of that type.
pub fn publish_value(declared: ValueType, value: Value) -> (r: Result<NT_ValueData, NetworkTablesError>)
    ensures
        r is Ok <==> publish_outcome(declared, value@.value_type()) is Ok,
        r is Err ==> r == Err::<NT_ValueData, NetworkTablesError>(
            publish_outcome(declared, value@.value_type())->Err_0,
        ),
        r is Ok ==> r->Ok_0@ == encode_spec(value@),
{
    let given = value.value_type();
    if given == ValueType::Unassigned {
        return Err(NetworkTablesError::SetToUnassigned);
    }
    if given != declared {
        return Err(NetworkTablesError::InvalidType { current_type: declared, given_type: given });
    }
    Ok(value.to_wire())
}

/// Whether `r` is the timestamped value that the engine record `v` stands for.
pub open spec fn decodes_to(v: NT_Value, r: RawValue) -> bool {
    &&& r.data@ == decode_spec(v.type_code, v.data@)
    &&& r.last_change.micros_spec() == #[verifier::truncate] (v.last_change as u64)
    &&& r.server_time.micros_spec() == #[verifier::truncate] (v.server_time as u64)
}

/// The updates of one drain of a subscriber's queue, in the order the engine
/// queued them (oldest first); `None`, not an empty batch, when nothing was
/// queued.
pub fn updates_from_queue(values: Vec<NT_Value>) -> (r: Option<Vec<RawValue>>)
    requires
        forall|i: int| 0 <= i < values@.len() ==> (#[trigger] values@[i]).wf(),
    ensures
        r is None <==> values@.len() == 0,
        r is Some ==> r->Some_0@.len() == values@.len(),
        r is Some ==> forall|i: int|
            0 <= i < values@.len() ==> decodes_to(values@[i], #[trigger] r->Some_0@[i]),
{
    if values.len() == 0 {
        return None;
    }
    let ghost batch = values@;
    let mut rest = values;
    let mut out: Vec<RawValue> = Vec::new();
    while rest.len() > 0
        invariant
            out@.len() + rest@.len() == batch.len(),
            rest@ == batch.subrange(out@.len() as int, batch.len() as int),
            forall|i: int| 0 <= i < batch.len() ==> (#[trigger] batch[i]).wf(),
            forall|i: int| 0 <= i < out@.len() ==> decodes_to(batch[i], #[trigger] out@[i]),
        decreases rest@.len(),
    {
        let v = rest.remove(0);
        let raw = RawValue::from_raw(v);
        out.push(raw);
        assert(rest@ =~= batch.subrange(out@.len() as int, batch.len() as int));
    }
    Some(out)
}

/// The values of a batch of updates, timestamps dropped, in order.
pub fn values_of(updates: Vec<RawValue>) -> (r: Vec<Value>)
    ensures
        r@ == updates@.map_values(|u: RawValue| u.data),
{
    let ghost batch = updates@;
    let mut rest = updates;
    let mut out: Vec<Value> = Vec::new();
    while rest.len() > 0
        invariant
            out@.len() + rest@.len() == batch.len(),
            rest@ == batch.subrange(out@.len() as int, batch.len() as int),
            out@ == batch.subrange(0, out@.len() as int).map_values(|u: RawValue| u.data),
        decreases rest@.len(),
    {
        let u = rest.remove(0);
        let ghost k = out@.len() as int;
        out.push(u.data);
        assert(batch.subrange(0, k + 1) =~= batch.subrange(0, k) + seq![batch[k]]);
        assert(out@ =~= batch.subrange(0, out@.len() as int).map_values(|u: RawValue| u.data));
        assert(rest@ =~= batch.subrange(out@.len() as int, batch.len() as int));
    }
    assert(batch.subrange(0, batch.len() as int) =~= batch);
    out
}

/// The most recent value of a non-empty batch of updates: its last element.
pub fn latest_value(updates: Vec<RawValue>) -> (r: Value)
    requires
        updates@.len() > 0,
    ensures
        r == updates@.last().data,
{
    let mut updates = updates;
    match updates.pop() {
        Some(u) => u.data,
        None => Value::Unassigned,
    }
}

} // verus!
