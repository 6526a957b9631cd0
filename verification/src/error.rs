//! The error taxonomy of the core.
//!
//! Two kinds of failure cross the core boundary and must never be conflated:
//! an engine failure while talking to the storage, and the distinguished
//! "the row this operation targeted no longer exists" condition raised by the
//! checked-state operations on items. A load that finds nothing is neither:
//! absence is an ordinary `None` result.

use vstd::prelude::*;

verus! {

/// A failure reported by a storage operation.
#[derive(Debug)]
pub enum Error {
    /// The underlying storage engine failed; `context` is a short fixed
    /// string naming the operation that failed.
    Storage { context: &'static str },
    /// The item this operation targeted is not present in the store; it may
    /// have been deleted by another caller.
    MissingItem,
}

impl Error {
    /// Wraps an engine failure, tagged with the operation that failed.
    pub fn storage(context: &'static str) -> (r: Error)
        ensures
            r == (Error::Storage { context }),
    {
        Error::Storage { context }
    }

    /// True exactly on the missing-item condition, so a host can keep the two
    /// failure kinds apart without matching on the enum itself.
    pub fn is_missing_item(&self) -> (r: bool)
        ensures
            r == (*self is MissingItem),
    {
        match self {
            Error::MissingItem => true,
            Error::Storage { .. } => false,
        }
    }

    /// What `message` returns: the context string of an engine failure, or
    /// the fixed missing-item message.
    pub open spec fn spec_message(&self) -> Seq<char> {
        match self {
            Error::Storage { context } => context@,
            Error::MissingItem => "this item is not present in the db; it may have been deleted"@,
        }
    }

    /// A human-readable description of the failure.
    pub fn message(&self) -> (r: String)
        ensures
            r@ == self.spec_message(),
    {
        match self {
            Error::Storage { context } => (*context).to_owned(),
            Error::MissingItem => "this item is not present in the db; it may have been deleted"
                .to_owned(),
        }
    }
}

} // verus!
