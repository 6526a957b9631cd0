//! The checklist entity: a named list that owns zero or more items.

use vstd::prelude::*;

use crate::error::Error;
use crate::ids::ChecklistId;
use crate::item::Item;
use crate::item::row_entities;
use crate::model::find_by;
use crate::model::lemma_find_by_absent;
use crate::model::lemma_find_by_first_match;
use crate::model::lemma_remove_by_wf;
use crate::model::remove_by;
use crate::store::Db;

verus! {

/// A named checklist. The id was assigned by the store on creation and is
/// never reused or mutated; the name carries no uniqueness constraint.
#[derive(Debug)]
pub struct Checklist {
    pub id: ChecklistId,
    pub name: String,
}

/// The key a checklist row is looked up by.
pub open spec fn checklist_key() -> spec_fn(Checklist) -> i64 {
    |c: Checklist| c.id.0
}

impl Clone for Checklist {
    fn clone(&self) -> (c: Self)
        ensures
            c == *self,
    {
        Checklist { id: self.id, name: self.name.clone() }
    }
}

impl Checklist {
    /// Creates a checklist named `name` and stores it. The store assigns the
    /// next free id atomically with the insert, so the returned checklist is
    /// exactly the stored row and no caller can observe one without its id.
    ///
    /// Realized against the engine by
    /// `INSERT INTO checklists(name) VALUES (?1) RETURNING id`.
    pub fn new(db: &mut Db, name: &str) -> (r: Result<Checklist, Error>)
        requires
            old(db).wf(),
            old(db).next_checklist_id < i64::MAX,
        ensures
            final(db).wf(),
            r is Ok,
            r->Ok_0.id.0 == old(db).next_checklist_id,
            r->Ok_0.name@ == name@,
            final(db).checklists@ == old(db).checklists@.push(r->Ok_0),
            final(db).items@ == old(db).items@,
            final(db).next_checklist_id == old(db).next_checklist_id + 1,
            final(db).next_item_id == old(db).next_item_id,
    {
        let id = ChecklistId::new(db.next_checklist_id);
        let stored = Checklist { id, name: name.to_owned() };
        let returned = stored.clone();
        proof {
            crate::model::lemma_keys_push_fresh(
                db.checklists@,
                checklist_key(),
                stored,
                1,
                db.next_checklist_id,
                (db.next_checklist_id + 1) as i64,
            );
        }
        db.checklists.push(stored);
        db.next_checklist_id = db.next_checklist_id + 1;
        Ok(returned)
    }

    /// Loads the checklist with id `id`, or `None` when no such checklist is
    /// stored: absence is an ordinary result here, never an error.
    ///
    /// Realized against the engine by
    /// `SELECT name FROM checklists WHERE id = ?1`.
    pub fn load(db: &Db, id: ChecklistId) -> (r: Result<Option<Checklist>, Error>)
        ensures
            r is Ok,
            r->Ok_0 == find_by(db.checklists@, checklist_key(), id.0),
    {
        let n = db.checklists.len();
        let mut i: usize = 0;
        while i < n
            invariant
                i <= n,
                n == db.checklists@.len(),
                forall|j: int| 0 <= j < i ==> (#[trigger] db.checklists@[j]).id.0 != id.0,
            decreases n - i,
        {
            if db.checklists[i].id.0 == id.0 {
                proof {
                    lemma_find_by_first_match(db.checklists@, checklist_key(), id.0, i as int);
                }
                return Ok(Some(db.checklists[i].clone()));
            }
            i += 1;
        }
        proof {
            lemma_find_by_absent(db.checklists@, checklist_key(), id.0);
        }
        Ok(None)
    }

    /// Loads every stored checklist, in the order the store keeps them:
    /// creation order, ids strictly increasing.
    ///
    /// Realized against the engine by `SELECT id, name FROM checklists`.
    pub fn all(db: &Db) -> (r: Result<Vec<Checklist>, Error>)
        ensures
            r is Ok,
            r->Ok_0@ == db.checklists@,
    {
        let n = db.checklists.len();
        let mut out: Vec<Checklist> = Vec::new();
        let mut i: usize = 0;
        while i < n
            invariant
                i <= n,
                n == db.checklists@.len(),
                out@ =~= db.checklists@.take(i as int),
            decreases n - i,
        {
            out.push(db.checklists[i].clone());
            proof {
                assert(out@ =~= db.checklists@.take(i as int + 1));
            }
            i += 1;
        }
        proof {
            assert(db.checklists@.take(n as int) =~= db.checklists@);
        }
        Ok(out)
    }

    /// Deletes the checklist with id `id`. Deleting an id that is not stored
    /// is a silent no-op, and the checklist's items are left in place: the
    /// store does not cascade, so they become orphans until deleted
    /// themselves.
    ///
    /// Realized against the engine by `DELETE FROM checklists WHERE id = ?1`.
    pub fn delete(db: &mut Db, id: ChecklistId) -> (r: Result<(), Error>)
        requires
            old(db).wf(),
        ensures
            final(db).wf(),
            r is Ok,
            final(db).checklists@ == remove_by(old(db).checklists@, checklist_key(), id.0),
            final(db).items@ == old(db).items@,
            final(db).next_checklist_id == old(db).next_checklist_id,
            final(db).next_item_id == old(db).next_item_id,
    {
        let ghost s = db.checklists@;
        let n = db.checklists.len();
        let mut kept: Vec<Checklist> = Vec::new();
        let mut i: usize = 0;
        while i < n
            invariant
                i <= n,
                n == s.len(),
                db.checklists@ == s,
                kept@ == remove_by(s.take(i as int), checklist_key(), id.0),
            decreases n - i,
        {
            proof {
                assert(s.take(i as int + 1) =~= s.take(i as int).push(s[i as int]));
                crate::model::lemma_remove_by_push(
                    s.take(i as int),
                    checklist_key(),
                    id.0,
                    s[i as int],
                );
            }
            if db.checklists[i].id.0 != id.0 {
                kept.push(db.checklists[i].clone());
            }
            i += 1;
        }
        proof {
            assert(s.take(n as int) =~= s);
            lemma_remove_by_wf(s, checklist_key(), id.0, 1, db.next_checklist_id);
        }
        db.checklists = kept;
        Ok(())
    }

    /// This checklist's id as the bare integer a host binding can carry.
    pub fn id(&self) -> (r: i64)
        ensures
            r == self.id.0,
    {
        self.id.get()
    }

    /// This checklist's name, copied out for a host binding.
    pub fn name(&self) -> (r: String)
        ensures
            r@ == self.name@,
    {
        self.name.clone()
    }

    /// Loads the items owned by this checklist: exactly the stored rows whose
    /// `checklist` field equals this checklist's id, in creation order,
    /// whatever other checklists' items were created in between.
    ///
    /// Realized against the engine by
    /// `SELECT id, item FROM items WHERE checklist = ?1`.
    pub fn items(&self, db: &Db) -> (r: Result<Vec<Item>, Error>)
        ensures
            r is Ok,
            r->Ok_0@ == row_entities(crate::item::items_of(db.items@, self.id.0)),
    {
        let cid = self.id.0;
        let n = db.items.len();
        let mut out: Vec<Item> = Vec::new();
        let mut i: usize = 0;
        while i < n
            invariant
                i <= n,
                n == db.items@.len(),
                out@ =~= row_entities(crate::item::items_of(db.items@.take(i as int), cid)),
            decreases n - i,
        {
            proof {
                broadcast use Seq::lemma_filter_push;

                let s = db.items@;
                assert(s.take(i as int + 1) =~= s.take(i as int).push(s[i as int]));
                assert(crate::item::items_of(s.take(i as int + 1), cid)
                    == s.take(i as int).push(s[i as int]).filter(crate::item::owned_by(cid)));
            }
            let row = &db.items[i];
            if row.checklist.0 == cid {
                out.push(Item { id: row.id, checklist: row.checklist, item: row.item.clone() });
                proof {
                    let s = db.items@;
                    assert(out@.last() == crate::item::row_entity(s[i as int]));
                    assert(out@ =~= row_entities(crate::item::items_of(s.take(i as int + 1), cid)));
                }
            } else {
                proof {
                    let s = db.items@;
                    assert(out@ =~= row_entities(crate::item::items_of(s.take(i as int + 1), cid)));
                }
            }
            i += 1;
        }
        proof {
            assert(db.items@.take(n as int) =~= db.items@);
        }
        Ok(out)
    }
}

} // verus!
