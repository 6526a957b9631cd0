//! Identifier types for the two entities.
//!
//! Checklists and items are both numbered from the same integer domain, but a
//! checklist id must never be usable where an item id is expected. Each gets
//! its own single-field wrapper with explicit, total conversions to and from
//! the bare integer; only at a host boundary (where nothing but an integer can
//! cross) is the wrapper opened.

use vstd::prelude::*;

verus! {

/// Identifier of a checklist, assigned by the store on creation and never
/// reused or mutated afterwards.
#[derive(Debug, Clone, Copy, PartialEq, Eq, Structural, PartialOrd, Ord)]
pub struct ChecklistId(pub i64);

impl ChecklistId {
    /// Wraps a bare integer coming from the storage or a host boundary.
    pub fn new(id: i64) -> (r: ChecklistId)
        ensures
            r.0 == id,
    {
        ChecklistId(id)
    }

    /// The bare integer, for the storage and host boundaries.
    pub fn get(self) -> (r: i64)
        ensures
            r == self.0,
    {
        self.0
    }
}

/// Identifier of an item, assigned by the store on creation and never reused
/// or mutated afterwards.
#[derive(Debug, Clone, Copy, PartialEq, Eq, Structural, PartialOrd, Ord)]
pub struct ItemId(pub i64);

impl ItemId {
    /// Wraps a bare integer coming from the storage or a host boundary.
    pub fn new(id: i64) -> (r: ItemId)
        ensures
            r.0 == id,
    {
        ItemId(id)
    }

    /// The bare integer, for the storage and host boundaries.
    pub fn get(self) -> (r: i64)
        ensures
            r == self.0,
    {
        self.0
    }
}

} // verus!
