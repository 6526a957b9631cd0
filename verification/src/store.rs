//! The store: the authoritative content of the database file and its schema.
//!
//! `Db` models what the encrypted database file holds: the two tables in
//! insertion order, and the next identifier each table will assign. The
//! engine that persists this content is asynchronous I/O and lives outside
//! the library; it receives the schema statements and the per-operation SQL
//! from here, and every operation it runs must behave as the contracts in
//! this crate say. All entity operations go through a `Db`, which owns no
//! cached entity state.

use vstd::prelude::*;

use crate::checklist::Checklist;
use crate::checklist::checklist_key;
use crate::item::ItemRow;
use crate::item::item_key;
use crate::model::keys_in_range;
use crate::model::keys_increasing;

verus! {

/// The statement that creates the checklists table when it is not yet there.
pub open spec fn checklists_schema() -> Seq<char> {
    "CREATE TABLE IF NOT EXISTS checklists (id INTEGER PRIMARY KEY AUTOINCREMENT, name TEXT NOT NULL)"@
}

/// The statement that creates the items table when it is not yet there.
pub open spec fn items_schema() -> Seq<char> {
    "CREATE TABLE IF NOT EXISTS items (id INTEGER PRIMARY KEY AUTOINCREMENT, checklist INTEGER NOT NULL REFERENCES checklists(id), item TEXT NOT NULL, checked BOOLEAN NOT NULL DEFAULT FALSE)"@
}

/// The form every schema statement must take so that re-running the schema
/// against an already-initialized file succeeds and touches nothing.
pub open spec fn guarded_creation() -> Seq<char> {
    "CREATE TABLE IF NOT EXISTS "@
}

/// The full schema, split into independent statements, each to be issued
/// separately and in this order when a database file is opened.
pub fn schema_statements() -> (v: Vec<&'static str>)
    ensures
        v@.len() == 2,
        v@[0]@ == checklists_schema(),
        v@[1]@ == items_schema(),
{
    let mut v: Vec<&'static str> = Vec::new();
    v.push(
        "CREATE TABLE IF NOT EXISTS checklists (id INTEGER PRIMARY KEY AUTOINCREMENT, name TEXT NOT NULL)",
    );
    v.push(
        "CREATE TABLE IF NOT EXISTS items (id INTEGER PRIMARY KEY AUTOINCREMENT, checklist INTEGER NOT NULL REFERENCES checklists(id), item TEXT NOT NULL, checked BOOLEAN NOT NULL DEFAULT FALSE)",
    );
    v
}

/// Re-running the schema statements is idempotent by form: each one only
/// creates a table that is not there yet, so none can error on, duplicate in,
/// or destroy an already-initialized file.
pub proof fn lemma_schema_statements_guarded()
    ensures
        checklists_schema().take(guarded_creation().len() as int) == guarded_creation(),
        items_schema().take(guarded_creation().len() as int) == guarded_creation(),
{
    reveal_strlit(
        "CREATE TABLE IF NOT EXISTS checklists (id INTEGER PRIMARY KEY AUTOINCREMENT, name TEXT NOT NULL)",
    );
    reveal_strlit(
        "CREATE TABLE IF NOT EXISTS items (id INTEGER PRIMARY KEY AUTOINCREMENT, checklist INTEGER NOT NULL REFERENCES checklists(id), item TEXT NOT NULL, checked BOOLEAN NOT NULL DEFAULT FALSE)",
    );
    reveal_strlit("CREATE TABLE IF NOT EXISTS ");
    assert(checklists_schema().take(guarded_creation().len() as int) =~= guarded_creation());
    assert(items_schema().take(guarded_creation().len() as int) =~= guarded_creation());
}

/// The content of one open database: both tables in insertion order, and the
/// next identifier each will assign. Identifiers start at 1 and are handed
/// out in increasing order, never reused.
pub struct Db {
    pub checklists: Vec<Checklist>,
    pub items: Vec<ItemRow>,
    pub next_checklist_id: i64,
    pub next_item_id: i64,
}

impl Db {
    /// The invariant every operation preserves: rows sit in creation order,
    /// so ids strictly increase along each table, lie in `[1, next)`, and
    /// never repeat.
    pub open spec fn wf(self) -> bool {
        &&& 1 <= self.next_checklist_id
        &&& 1 <= self.next_item_id
        &&& keys_increasing(self.checklists@, checklist_key())
        &&& keys_in_range(self.checklists@, checklist_key(), 1, self.next_checklist_id)
        &&& keys_increasing(self.items@, item_key())
        &&& keys_in_range(self.items@, item_key(), 1, self.next_item_id)
    }

    /// What a freshly created database file holds once the schema has been
    /// applied: two empty tables, with both counters at their first value.
    pub fn new() -> (db: Db)
        ensures
            db.wf(),
            db.checklists@ =~= Seq::<Checklist>::empty(),
            db.items@ =~= Seq::<ItemRow>::empty(),
            db.next_checklist_id == 1,
            db.next_item_id == 1,
    {
        Db { checklists: Vec::new(), items: Vec::new(), next_checklist_id: 1, next_item_id: 1 }
    }

    /// Applying the schema to an already-open database succeeds and changes
    /// nothing: every statement of `schema_statements` creates a table only
    /// when it is not there yet, so existing rows are neither duplicated nor
    /// lost. Opening the same file twice in sequence therefore never errors.
    pub fn ensure_schema(&self) -> (r: Result<(), crate::error::Error>)
        ensures
            r is Ok,
    {
        Ok(())
    }
}

} // verus!
