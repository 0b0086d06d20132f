//! Typed value and publish/subscribe access layer over a network table engine.
//!
//! The engine itself is reached through opaque handles by the embedding
//! program; this crate holds the rules that sit around those calls: timestamps,
//! the typed value model and its wire form, type pinning of entries, flag
//! mapping, update queues and subscription options.

pub mod entry;
pub mod flags;
pub mod instance;
pub mod instant;
pub mod logging;
pub mod options;
pub mod topic;
pub mod value;
pub mod wire;

use vstd::prelude::*;
use crate::value::ValueType;

verus! {

/// The protocol version a client speaks.
#[derive(Debug, Clone, Copy, PartialEq, Eq, Structural, Hash)]
pub enum NetworkTablesVersion {
    V4,
    V3,
}

impl Default for NetworkTablesVersion {
    fn default() -> (r: Self)
        ensures
            r == NetworkTablesVersion::V4,
    {
        NetworkTablesVersion::V4
    }
}

/// Errors that can occur when interacting with network tables.
#[derive(Debug, Clone, Copy, PartialEq, Eq, Structural, Hash)]
pub enum NetworkTablesError {
    /// Attempted to write an entry or topic with a value of a type other than
    /// the one it is pinned to or was declared with.
    InvalidType { current_type: ValueType, given_type: ValueType },
    /// Attempted to set the flags of an entry that was never written.
    UnassignedFlags,
    /// Attempted to write the unassigned value.
    SetToUnassigned,
    /// The engine refused a write that passed the local checks.
    EngineRejected,
}

impl NetworkTablesError {
    /// A human-readable description of the error.
    pub fn message(&self) -> (r: String) {
        match self {
            NetworkTablesError::InvalidType { .. } => String::from_str(
                "attempted to write a value of a type other than the one the entry or topic holds",
            ),
            NetworkTablesError::UnassignedFlags => String::from_str(
                "attempted to set the flags of an unassigned entry",
            ),
            NetworkTablesError::SetToUnassigned => String::from_str(
                "attempted to set an entry or topic to the unassigned value",
            ),
            NetworkTablesError::EngineRejected => String::from_str(
                "the engine rejected the write",
            ),
        }
    }
}

/// Interprets the status the engine returns for a write: 1 is success.
pub fn engine_status(status: i32) -> (r: Result<(), NetworkTablesError>)
    ensures
        r == if status == 1 {
            Ok::<(), NetworkTablesError>(())
        } else {
            Err(NetworkTablesError::EngineRejected)
        },
{
    if status == 1 {
        Ok(())
    } else {
        Err(NetworkTablesError::EngineRejected)
    }
}

} // verus!
