//! The item entity: a single checkable line belonging to one checklist.

use vstd::prelude::*;

use crate::error::Error;
use crate::ids::ChecklistId;
use crate::ids::ItemId;
use crate::model::find_by;
use crate::store::Db;

verus! {

/// A checkable line of a checklist. The id was assigned by the store on
/// creation; `checklist` names the owning checklist and is set once at
/// creation, immutable thereafter. The checked state is not cached here: it
/// lives only in the store and is read and written by id on every call.
#[derive(Debug)]
pub struct Item {
    pub id: ItemId,
    pub checklist: ChecklistId,
    pub item: String,
}

/// An item as the store keeps it: the entity fields plus the checked flag,
/// which only the store holds authoritatively.
#[derive(Debug)]
pub struct ItemRow {
    pub id: ItemId,
    pub checklist: ChecklistId,
    pub item: String,
    pub checked: bool,
}

/// The key an item row is looked up by.
pub open spec fn item_key() -> spec_fn(ItemRow) -> i64 {
    |r: ItemRow| r.id.0
}

/// The entity an item row presents to callers (everything but the checked
/// flag, which is read separately so it is never stale).
pub open spec fn row_entity(r: ItemRow) -> Item {
    Item { id: r.id, checklist: r.checklist, item: r.item }
}

/// The entities of a sequence of rows, in order.
pub open spec fn row_entities(s: Seq<ItemRow>) -> Seq<Item> {
    s.map_values(|r: ItemRow| row_entity(r))
}

/// The predicate selecting the rows owned by checklist `cid`.
pub open spec fn owned_by(cid: i64) -> spec_fn(ItemRow) -> bool {
    |r: ItemRow| r.checklist.0 == cid
}

/// The rows that belong to checklist `cid`, in insertion order.
pub open spec fn items_of(s: Seq<ItemRow>, cid: i64) -> Seq<ItemRow> {
    s.filter(owned_by(cid))
}

/// Every row whose id is `id` with its checked flag set to `checked`; all
/// other rows unchanged. (The store keys rows uniquely, so at most one row is
/// touched.)
pub open spec fn set_checked_in(s: Seq<ItemRow>, id: i64, checked: bool) -> Seq<ItemRow> {
    s.map_values(
        |r: ItemRow|
            if r.id.0 == id {
                ItemRow { id: r.id, checklist: r.checklist, item: r.item, checked }
            } else {
                r
            },
    )
}

/// Setting one item's checked flag keeps every row's identity, owner and
/// text, so the table stays well formed; only the matching row's flag moves.
pub proof fn lemma_set_checked_in_preserves_wf(s: Seq<ItemRow>, id: i64, b: bool, lo: i64, hi: i64)
    requires
        crate::model::keys_increasing(s, item_key()),
        crate::model::keys_in_range(s, item_key(), lo, hi),
    ensures
        crate::model::keys_increasing(set_checked_in(s, id, b), item_key()),
        crate::model::keys_in_range(set_checked_in(s, id, b), item_key(), lo, hi),
        set_checked_in(s, id, b).len() == s.len(),
        forall|j: int| 0 <= j < s.len() ==> (#[trigger] set_checked_in(s, id, b)[j]).id == s[j].id,
{
    let t = set_checked_in(s, id, b);
    assert(forall|j: int| 0 <= j < s.len() ==> (#[trigger] t[j]).id == s[j].id);
}

/// What a lookup sees after one item's checked flag was written: the row
/// under the written id carries the new flag and nothing else of it moved,
/// and every other id reads exactly as before.
pub proof fn lemma_find_by_set_checked(s: Seq<ItemRow>, id: i64, b: bool, id2: i64)
    ensures
        find_by(set_checked_in(s, id, b), item_key(), id2) == (match find_by(
            s,
            item_key(),
            id2,
        ) {
            Option::None => Option::<ItemRow>::None,
            Option::Some(r) => Option::Some(
                if r.id.0 == id {
                    ItemRow { id: r.id, checklist: r.checklist, item: r.item, checked: b }
                } else {
                    r
                },
            ),
        }),
    decreases s.len(),
{
    let t = set_checked_in(s, id, b);
    if s.len() == 0 {
    } else {
        assert(t[0] == (if s[0].id.0 == id {
            ItemRow { id: s[0].id, checklist: s[0].checklist, item: s[0].item, checked: b }
        } else {
            s[0]
        }));
        assert(t.drop_first() =~= set_checked_in(s.drop_first(), id, b));
        lemma_find_by_set_checked(s.drop_first(), id, b, id2);
    }
}

impl Clone for Item {
    fn clone(&self) -> (c: Self)
        ensures
            c == *self,
    {
        Item { id: self.id, checklist: self.checklist, item: self.item.clone() }
    }
}

impl Clone for ItemRow {
    fn clone(&self) -> (c: Self)
        ensures
            c == *self,
    {
        ItemRow {
            id: self.id,
            checklist: self.checklist,
            item: self.item.clone(),
            checked: self.checked,
        }
    }
}

impl Item {
    /// Creates an item with text `item` under the checklist whose id is
    /// `checklist`, which must be stored at this moment (the reference is not
    /// re-validated later, so deleting the checklist orphans the item). The
    /// store assigns the next free id atomically with the insert, and a fresh
    /// item always starts unchecked.
    ///
    /// Realized against the engine by
    /// `INSERT INTO items(checklist, item) VALUES (?1, ?2) RETURNING id`.
    pub fn new(db: &mut Db, checklist: ChecklistId, item: String) -> (r: Result<Item, Error>)
        requires
            old(db).wf(),
            old(db).next_item_id < i64::MAX,
            crate::model::has_key(
                old(db).checklists@,
                crate::checklist::checklist_key(),
                checklist.0,
            ),
        ensures
            final(db).wf(),
            r is Ok,
            r->Ok_0.id.0 == old(db).next_item_id,
            r->Ok_0.checklist == checklist,
            r->Ok_0.item@ == item@,
            final(db).items@.len() == old(db).items@.len() + 1,
            final(db).items@ == old(db).items@.push(final(db).items@.last()),
            final(db).items@.last().id == r->Ok_0.id,
            final(db).items@.last().checklist == checklist,
            final(db).items@.last().item@ == item@,
            final(db).items@.last().checked == false,
            final(db).checklists@ == old(db).checklists@,
            final(db).next_item_id == old(db).next_item_id + 1,
            final(db).next_checklist_id == old(db).next_checklist_id,
    {
        let id = ItemId::new(db.next_item_id);
        let row = ItemRow { id, checklist, item: item.clone(), checked: false };
        proof {
            crate::model::lemma_keys_push_fresh(
                db.items@,
                item_key(),
                row,
                1,
                db.next_item_id,
                (db.next_item_id + 1) as i64,
            );
        }
        db.items.push(row);
        db.next_item_id = db.next_item_id + 1;
        Ok(Item { id, checklist, item })
    }

    /// Loads the item with id `id`, or `None` when no such item is stored:
    /// absence is an ordinary result here, never an error. The checked flag
    /// is not part of the entity; it is read separately so it is never stale.
    ///
    /// Realized against the engine by
    /// `SELECT checklist, item FROM items WHERE id = ?1`.
    pub fn load(db: &Db, id: ItemId) -> (r: Result<Option<Item>, Error>)
        ensures
            r is Ok,
            r->Ok_0 is Some <==> find_by(db.items@, item_key(), id.0) is Some,
            r->Ok_0 is Some ==> r->Ok_0->Some_0 == row_entity(
                find_by(db.items@, item_key(), id.0)->Some_0,
            ),
    {
        let n = db.items.len();
        let mut i: usize = 0;
        while i < n
            invariant
                i <= n,
                n == db.items@.len(),
                forall|j: int| 0 <= j < i ==> (#[trigger] db.items@[j]).id.0 != id.0,
            decreases n - i,
        {
            if db.items[i].id.0 == id.0 {
                proof {
                    crate::model::lemma_find_by_first_match(db.items@, item_key(), id.0, i as int);
                }
                let row = &db.items[i];
                return Ok(Some(Item { id: row.id, checklist: row.checklist, item: row.item.clone() }));
            }
            i += 1;
        }
        proof {
            crate::model::lemma_find_by_absent(db.items@, item_key(), id.0);
        }
        Ok(None)
    }

    /// Deletes the item with id `id`. Deleting an id that is not stored is a
    /// silent no-op: a zero-row delete is not surfaced as an error.
    ///
    /// Realized against the engine by `DELETE FROM items WHERE id = ?1`.
    pub fn delete(db: &mut Db, id: ItemId) -> (r: Result<(), Error>)
        requires
            old(db).wf(),
        ensures
            final(db).wf(),
            r is Ok,
            final(db).items@ == crate::model::remove_by(old(db).items@, item_key(), id.0),
            final(db).checklists@ == old(db).checklists@,
            final(db).next_checklist_id == old(db).next_checklist_id,
            final(db).next_item_id == old(db).next_item_id,
    {
        let ghost s = db.items@;
        let n = db.items.len();
        let mut kept: Vec<ItemRow> = Vec::new();
        let mut i: usize = 0;
        while i < n
            invariant
                i <= n,
                n == s.len(),
                db.items@ == s,
                kept@ == crate::model::remove_by(s.take(i as int), item_key(), id.0),
            decreases n - i,
        {
            proof {
                assert(s.take(i as int + 1) =~= s.take(i as int).push(s[i as int]));
                crate::model::lemma_remove_by_push(s.take(i as int), item_key(), id.0, s[i as int]);
            }
            if db.items[i].id.0 != id.0 {
                kept.push(db.items[i].clone());
            }
            i += 1;
        }
        proof {
            assert(s.take(n as int) =~= s);
            crate::model::lemma_remove_by_wf(s, item_key(), id.0, 1, db.next_item_id);
        }
        db.items = kept;
        Ok(())
    }

    /// This item's id as the bare integer a host binding can carry.
    pub fn id(&self) -> (r: i64)
        ensures
            r == self.id.0,
    {
        self.id.get()
    }

    /// The owning checklist's id as the bare integer a host binding can
    /// carry.
    pub fn checklist_id(&self) -> (r: i64)
        ensures
            r == self.checklist.0,
    {
        self.checklist.get()
    }

    /// This item's text, copied out for a host binding.
    pub fn item(&self) -> (r: String)
        ensures
            r@ == self.item@,
    {
        self.item.clone()
    }

    /// Reads this item's current checked state from the store, never from any
    /// local cache, so the answer reflects the latest persisted value. When
    /// the row no longer exists the result is the distinguished
    /// missing-item error — deletion elsewhere is not an engine failure, and
    /// never a silent default.
    ///
    /// Realized against the engine by
    /// `SELECT checked FROM items WHERE id = ?1`.
    pub fn is_set(&self, db: &Db) -> (r: Result<bool, Error>)
        ensures
            find_by(db.items@, item_key(), self.id.0) is Some ==> r == Ok::<bool, Error>(
                find_by(db.items@, item_key(), self.id.0)->Some_0.checked,
            ),
            find_by(db.items@, item_key(), self.id.0) is None ==> r == Err::<bool, Error>(
                Error::MissingItem,
            ),
    {
        let n = db.items.len();
        let mut i: usize = 0;
        while i < n
            invariant
                i <= n,
                n == db.items@.len(),
                forall|j: int| 0 <= j < i ==> (#[trigger] db.items@[j]).id.0 != self.id.0,
            decreases n - i,
        {
            if db.items[i].id.0 == self.id.0 {
                proof {
                    crate::model::lemma_find_by_first_match(
                        db.items@,
                        item_key(),
                        self.id.0,
                        i as int,
                    );
                }
                return Ok(db.items[i].checked);
            }
            i += 1;
        }
        proof {
            crate::model::lemma_find_by_absent(db.items@, item_key(), self.id.0);
        }
        Err(Error::MissingItem)
    }

    /// Writes this item's checked state in the store. A write that touches no
    /// row means the item no longer exists and fails with the distinguished
    /// missing-item error, never silently; otherwise exactly this item's flag
    /// takes the given value.
    ///
    /// Realized against the engine by
    /// `UPDATE items SET checked = ?1 WHERE id = ?2`, failing when the engine
    /// reports zero affected rows.
    pub fn set_checked(&self, db: &mut Db, checked: bool) -> (r: Result<(), Error>)
        requires
            old(db).wf(),
        ensures
            final(db).wf(),
            final(db).checklists@ == old(db).checklists@,
            final(db).next_checklist_id == old(db).next_checklist_id,
            final(db).next_item_id == old(db).next_item_id,
            crate::model::has_key(old(db).items@, item_key(), self.id.0) ==> r is Ok
                && final(db).items@ == set_checked_in(old(db).items@, self.id.0, checked),
            !crate::model::has_key(old(db).items@, item_key(), self.id.0) ==> r == Err::<(),
                Error,
            >(Error::MissingItem) && final(db).items@ == old(db).items@,
    {
        let ghost s = db.items@;
        let n = db.items.len();
        let mut i: usize = 0;
        while i < n
            invariant
                i <= n,
                n == s.len(),
                *db == *old(db),
                old(db).wf(),
                db.items@ == s,
                forall|j: int| 0 <= j < i ==> (#[trigger] s[j]).id.0 != self.id.0,
            decreases n - i,
        {
            if db.items[i].id.0 == self.id.0 {
                db.items[i].checked = checked;
                proof {
                    lemma_set_checked_in_preserves_wf(s, self.id.0, checked, 1, db.next_item_id);
                    let t = set_checked_in(s, self.id.0, checked);
                    assert forall|j: int| 0 <= j < s.len() implies t[j] == db.items@[j] by {
                        if j != i {
                            if s[j].id.0 == s[i as int].id.0 {
                                assert(false);
                            }
                        }
                    }
                    assert(db.items@ =~= t);
                }
                return Ok(());
            }
            i += 1;
        }
        proof {
            assert(!crate::model::has_key(s, item_key(), self.id.0));
        }
        Err(Error::MissingItem)
    }
}

} // verus!
