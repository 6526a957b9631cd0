//! The laws of the store, stated once and proved for every state.
//!
//! Each proof function here is a guarantee of the library as a whole: it is
//! phrased over the same spec functions the entity contracts use, so what it
//! says holds of any sequence of verified operations on a well-formed `Db`.

use vstd::prelude::*;

use crate::checklist::Checklist;
use crate::checklist::checklist_key;
use crate::item::ItemRow;
use crate::item::item_key;
use crate::item::items_of;
use crate::item::lemma_find_by_set_checked;
use crate::item::owned_by;
use crate::item::set_checked_in;
use crate::model::find_by;
use crate::model::has_key;
use crate::model::keys_increasing;
use crate::model::lemma_find_by_absent;
use crate::model::lemma_find_by_found;
use crate::model::lemma_find_by_push_new;
use crate::model::lemma_find_by_push_other;
use crate::model::lemma_remove_by_absent;
use crate::model::lemma_remove_by_keeps_others;
use crate::model::remove_by;

verus! {

/// Identity stability: whenever a lookup finds a checklist, it is a stored
/// one and its id is exactly the id the lookup asked for — an id observed
/// through load or list is the id create returned, never another.
pub proof fn lemma_checklist_identity_stable(s: Seq<Checklist>, id: i64)
    ensures
        find_by(s, checklist_key(), id) is Some ==> {
            &&& find_by(s, checklist_key(), id)->Some_0.id.0 == id
            &&& s.contains(find_by(s, checklist_key(), id)->Some_0)
        },
{
    if find_by(s, checklist_key(), id) is Some {
        lemma_find_by_found(s, checklist_key(), id);
    }
}

/// Identity stability for items: a found row carries the requested id and is
/// one of the stored rows.
pub proof fn lemma_item_identity_stable(s: Seq<ItemRow>, id: i64)
    ensures
        find_by(s, item_key(), id) is Some ==> {
            &&& find_by(s, item_key(), id)->Some_0.id.0 == id
            &&& s.contains(find_by(s, item_key(), id)->Some_0)
        },
{
    if find_by(s, item_key(), id) is Some {
        lemma_find_by_found(s, item_key(), id);
    }
}

/// Round trip: creating a checklist appends a row under a fresh id, and
/// loading that id afterwards returns exactly the created checklist, name
/// and id alike.
pub proof fn lemma_checklist_round_trip(s: Seq<Checklist>, c: Checklist)
    requires
        forall|i: int| 0 <= i < s.len() ==> (#[trigger] s[i]).id.0 != c.id.0,
    ensures
        find_by(s.push(c), checklist_key(), c.id.0) == Some(c),
{
    lemma_find_by_push_new(s, checklist_key(), c);
}

/// Round trip for items: loading the id a create assigned returns exactly
/// the created row; in particular a freshly created item reads back
/// unchecked, since create appends its row with the flag off.
pub proof fn lemma_item_round_trip(s: Seq<ItemRow>, row: ItemRow)
    requires
        forall|i: int| 0 <= i < s.len() ==> (#[trigger] s[i]).id.0 != row.id.0,
    ensures
        find_by(s.push(row), item_key(), row.id.0) == Some(row),
{
    lemma_find_by_push_new(s, item_key(), row);
}

/// Creating a checklist disturbs no other checklist: every other id loads
/// exactly as before.
pub proof fn lemma_checklist_create_keeps_others(s: Seq<Checklist>, c: Checklist, id: i64)
    requires
        c.id.0 != id,
    ensures
        find_by(s.push(c), checklist_key(), id) == find_by(s, checklist_key(), id),
{
    lemma_find_by_push_other(s, checklist_key(), id, c);
}

/// Listing every checklist never shows an id twice: the store hands ids out
/// in increasing order, so a well-formed table has no duplicates.
pub proof fn lemma_all_checklists_no_duplicates(s: Seq<Checklist>)
    requires
        keys_increasing(s, checklist_key()),
    ensures
        forall|i: int, j: int|
            0 <= i < j < s.len() ==> (#[trigger] s[i]).id.0 != (#[trigger] s[j]).id.0,
{
}

/// Toggle correctness: writing the checked flag and reading it back returns
/// the written value — whichever value, however often, reads and writes by
/// id never desynchronize — and the write moves nothing else of the row.
pub proof fn lemma_set_then_read(s: Seq<ItemRow>, id: i64, b: bool)
    requires
        has_key(s, item_key(), id),
    ensures
        find_by(set_checked_in(s, id, b), item_key(), id) is Some,
        find_by(set_checked_in(s, id, b), item_key(), id)->Some_0.checked == b,
        crate::item::row_entity(find_by(set_checked_in(s, id, b), item_key(), id)->Some_0)
            == crate::item::row_entity(find_by(s, item_key(), id)->Some_0),
{
    lemma_find_by_absent(s, item_key(), id);
    lemma_find_by_found(s, item_key(), id);
    lemma_find_by_set_checked(s, id, b, id);
}

/// Overwriting the checked flag forgets the earlier write: two writes to the
/// same id leave exactly what the second one wrote.
pub proof fn lemma_set_twice(s: Seq<ItemRow>, id: i64, b1: bool, b2: bool)
    ensures
        set_checked_in(set_checked_in(s, id, b1), id, b2) == set_checked_in(s, id, b2),
{
    assert(set_checked_in(set_checked_in(s, id, b1), id, b2) =~= set_checked_in(s, id, b2));
}

/// Writing one item's flag leaves every other item's row exactly as it was.
pub proof fn lemma_set_keeps_others(s: Seq<ItemRow>, id: i64, b: bool, id2: i64)
    requires
        id2 != id,
    ensures
        find_by(set_checked_in(s, id, b), item_key(), id2) == find_by(s, item_key(), id2),
{
    lemma_find_by_set_checked(s, id, b, id2);
    if find_by(s, item_key(), id2) is Some {
        lemma_find_by_found(s, item_key(), id2);
    }
}

/// Missing-item semantics: once an item is deleted, looking its id up misses
/// entirely — so reading or writing its checked state fails with the
/// distinguished missing-item error, not with an engine failure and not
/// silently.
pub proof fn lemma_deleted_item_is_missing(s: Seq<ItemRow>, id: i64)
    ensures
        find_by(remove_by(s, item_key(), id), item_key(), id) is None,
        !has_key(remove_by(s, item_key(), id), item_key(), id),
{
    lemma_remove_by_absent(s, item_key(), id);
    lemma_find_by_absent(remove_by(s, item_key(), id), item_key(), id);
}

/// Absence is not an error: a checklist lookup misses exactly when no stored
/// checklist carries the id — and the load operations return that miss as an
/// ordinary empty result, never as a failure.
pub proof fn lemma_checklist_miss_is_absence(s: Seq<Checklist>, id: i64)
    ensures
        find_by(s, checklist_key(), id) is None <==> forall|i: int|
            0 <= i < s.len() ==> (#[trigger] s[i]).id.0 != id,
{
    lemma_find_by_absent(s, checklist_key(), id);
}

/// Absence is not an error, for items.
pub proof fn lemma_item_miss_is_absence(s: Seq<ItemRow>, id: i64)
    ensures
        find_by(s, item_key(), id) is None <==> forall|i: int|
            0 <= i < s.len() ==> (#[trigger] s[i]).id.0 != id,
{
    lemma_find_by_absent(s, item_key(), id);
}

/// Deleting one checklist leaves every other id's load unchanged; the same
/// holds of items, whose removals go through the same removal model.
pub proof fn lemma_delete_checklist_keeps_others(s: Seq<Checklist>, id: i64, id2: i64)
    requires
        id2 != id,
    ensures
        find_by(remove_by(s, checklist_key(), id), checklist_key(), id2) == find_by(
            s,
            checklist_key(),
            id2,
        ),
{
    lemma_remove_by_keeps_others(s, checklist_key(), id, id2);
}

/// Ownership: the items listed for a checklist are exactly the stored rows
/// created under that checklist's id — every listed row names it as owner,
/// every stored row that names it is listed, and nothing is listed that is
/// not stored.
pub proof fn lemma_items_ownership(s: Seq<ItemRow>, cid: i64)
    ensures
        forall|i: int|
            0 <= i < items_of(s, cid).len() ==> (#[trigger] items_of(s, cid)[i]).checklist.0
                == cid,
        forall|i: int|
            0 <= i < s.len() && (#[trigger] s[i]).checklist.0 == cid ==> items_of(s, cid).contains(
                s[i],
            ),
        forall|i: int| 0 <= i < items_of(s, cid).len() ==> s.contains(items_of(s, cid)[i]),
{
    broadcast use Seq::lemma_filter_pred;
    broadcast use Seq::lemma_filter_contains;

    assert forall|i: int| 0 <= i < items_of(s, cid).len() implies s.contains(
        items_of(s, cid)[i],
    ) by {
        assert(items_of(s, cid).contains(items_of(s, cid)[i]));
        s.lemma_filter_contains_rev(owned_by(cid), items_of(s, cid)[i]);
    }
}

/// Ownership is unaffected by creation order: appending a row owned by one
/// checklist extends exactly that checklist's listing and no other's.
pub proof fn lemma_items_ownership_order_free(s: Seq<ItemRow>, row: ItemRow, cid: i64)
    ensures
        items_of(s.push(row), cid) == (if row.checklist.0 == cid {
            items_of(s, cid).push(row)
        } else {
            items_of(s, cid)
        }),
{
    broadcast use Seq::lemma_filter_push;

}

} // verus!
