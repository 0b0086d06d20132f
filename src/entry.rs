//! Type-pinned entries: the rules of writing a value or flags to an entry.
//!
//! An entry is unassigned until its first successful write, which pins its
//! type; every later write must carry a value of that type.

use vstd::prelude::*;
use crate::flags::ValueFlags;
use crate::instant::NetworkTablesInstant;
use crate::value::{RawValue, Value, ValueType};
use crate::NetworkTablesError;

verus! {

/// The result of writing a value of type `given` to an entry of type `current`.
pub open spec fn write_outcome(current: ValueType, given: ValueType) -> Result<(), NetworkTablesError> {
    if given == ValueType::Unassigned {
        Err(NetworkTablesError::SetToUnassigned)
    } else if current != ValueType::Unassigned && current != given {
        Err(NetworkTablesError::InvalidType { current_type: current, given_type: given })
    } else {
        Ok(())
    }
}

/// An entry's state after `value` was written to it at `now`: the server time
/// is stamped only in the server role, and is otherwise kept until the engine
/// replicates the write.
pub open spec fn written(current: RawValue, value: Value, is_server: bool, now: NetworkTablesInstant) -> RawValue {
    RawValue {
        data: value,
        last_change: now,
        server_time: if is_server {
            now
        } else {
            current.server_time
        },
    }
}

/// The result of setting flags on an entry of type `current`.
pub open spec fn flags_outcome(current: ValueType) -> Result<(), NetworkTablesError> {
    if current == ValueType::Unassigned {
        Err(NetworkTablesError::UnassignedFlags)
    } else {
        Ok(())
    }
}

/// Writes `value` to an entry whose current state is `current`, at engine time
/// `now`. On success `current` becomes the state to hand to the engine; on
/// failure it is left as it was.
pub fn set_value(current: &mut RawValue, value: Value, is_server: bool, now: NetworkTablesInstant) -> (r: Result<(), NetworkTablesError>)
    ensures
        r == write_outcome(old(current).data@.value_type(), value@.value_type()),
        r.is_ok() ==> *final(current) == written(*old(current), value, is_server, now),
        r.is_err() ==> *final(current) == *old(current),
{
    let current_type = current.data.value_type();
    let given_type = value.value_type();
    if given_type == ValueType::Unassigned {
        return Err(NetworkTablesError::SetToUnassigned);
    }
    if current_type != ValueType::Unassigned && current_type != given_type {
        return Err(NetworkTablesError::InvalidType { current_type, given_type });
    }
    current.data = value;
    current.last_change = now;
    if is_server {
        current.server_time = now;
    }
    Ok(())
}

/// Checks that flags may be set on an entry of type `current_type`, and gives
/// the mask to hand to the engine.
pub fn set_flags(current_type: ValueType, flags: ValueFlags) -> (r: Result<u32, NetworkTablesError>)
    ensures
        flags_outcome(current_type) is Err ==> r == Err::<u32, NetworkTablesError>(
            NetworkTablesError::UnassignedFlags,
        ),
        flags_outcome(current_type) is Ok ==> r == Ok::<u32, NetworkTablesError>(flags@),
{
    if current_type == ValueType::Unassigned {
        Err(NetworkTablesError::UnassignedFlags)
    } else {
        Ok(flags.bits())
    }
}

/// Whether an entry of type `current_type` holds a value.
pub fn is_assigned(current_type: ValueType) -> (r: bool)
    ensures
        r == (current_type != ValueType::Unassigned),
{
    current_type != ValueType::Unassigned
}

/// Whether an entry of type `current_type` holds no value.
pub fn is_unassigned(current_type: ValueType) -> (r: bool)
    ensures
        r == (current_type == ValueType::Unassigned),
{
    !is_assigned(current_type)
}

/// Type pinning: on an entry that was never written, the first write of a
/// value of type T succeeds and pins the entry to T; a later write of type T
/// succeeds, and a later write of another type U fails with
/// `InvalidType { current_type: T, given_type: U }`.
pub proof fn lemma_type_pinning(
    entry: RawValue,
    first: Value,
    same: Value,
    other: Value,
    is_server: bool,
    now: NetworkTablesInstant,
)
    requires
        entry.data@.value_type() == ValueType::Unassigned,
        first@.value_type() != ValueType::Unassigned,
        same@.value_type() == first@.value_type(),
        other@.value_type() != first@.value_type(),
        other@.value_type() != ValueType::Unassigned,
    ensures
        write_outcome(entry.data@.value_type(), first@.value_type()) is Ok,
        written(entry, first, is_server, now).data@.value_type() == first@.value_type(),
        write_outcome(written(entry, first, is_server, now).data@.value_type(), same@.value_type()) is Ok,
        write_outcome(written(entry, first, is_server, now).data@.value_type(), other@.value_type())
            == Err::<(), NetworkTablesError>(
            NetworkTablesError::InvalidType {
                current_type: first@.value_type(),
                given_type: other@.value_type(),
            },
        ),
{
}

/// Writing the unassigned value fails with `SetToUnassigned`, whatever type the
/// entry is pinned to (and a failed write leaves the entry as it was).
pub proof fn lemma_unassigned_write_fails(current: ValueType, value: Value)
    requires
        value@.value_type() == ValueType::Unassigned,
    ensures
        write_outcome(current, value@.value_type()) == Err::<(), NetworkTablesError>(
            NetworkTablesError::SetToUnassigned,
        ),
{
}

/// Flags cannot be set on an entry that was never written, and can be once a
/// write has succeeded.
pub proof fn lemma_flags_need_assignment(
    entry: RawValue,
    value: Value,
    is_server: bool,
    now: NetworkTablesInstant,
)
    requires
        entry.data@.value_type() == ValueType::Unassigned,
        write_outcome(entry.data@.value_type(), value@.value_type()) is Ok,
    ensures
        flags_outcome(entry.data@.value_type()) == Err::<(), NetworkTablesError>(
            NetworkTablesError::UnassignedFlags,
        ),
        flags_outcome(written(entry, value, is_server, now).data@.value_type()) is Ok,
{
}

} // verus!
