//! The command-line front end's command model and its dispatch.
//!
//! Parsing argv into these types, colouring the output and exiting with a
//! status are host concerns; the decisions in between — which entity
//! operations a command performs, in what order, what it shows and when it
//! aborts — are `execute`, verified against the store model. The host runs
//! the same steps against the real engine and renders the returned output.

use vstd::prelude::*;

use crate::checklist::Checklist;
use crate::checklist::checklist_key;
use crate::error::Error;
use crate::ids::ChecklistId;
use crate::ids::ItemId;
use crate::item::Item;
use crate::item::item_key;
use crate::item::items_of;
use crate::item::owned_by;
use crate::item::row_entity;
use crate::item::row_entities;
use crate::item::set_checked_in;
use crate::model::find_by;
use crate::model::lemma_find_by_absent;
use crate::model::lemma_find_by_contained;
use crate::model::lemma_find_by_found;
use crate::model::remove_by;
use crate::store::Db;
use vstd::pervasive::unreached;

verus! {

/// A parsed invocation: one noun group with its verb.
pub struct Cli {
    pub noun: Noun,
}

/// The two noun groups of the tool.
pub enum Noun {
    /// Manage lists.
    List(ListVerbAction),
    /// Manage items.
    Item(ItemVerbAction),
}

/// The verb applied to the list noun.
pub struct ListVerbAction {
    pub verb: ListVerb,
}

/// What can be done with checklists.
pub enum ListVerb {
    /// Show all checklists.
    ShowAll(ShowAllChecklists),
    /// Create a new checklist.
    New(NewChecklist),
    /// Delete a checklist.
    Remove(RemoveChecklist),
}

/// Show all checklists.
pub struct ShowAllChecklists {}

/// Create a new checklist.
pub struct NewChecklist {
    /// Name of this checklist.
    pub name: String,
}

/// Delete a checklist.
pub struct RemoveChecklist {
    /// Id of the checklist to remove.
    pub id: ChecklistId,
}

/// The verb applied to the item noun.
pub struct ItemVerbAction {
    pub verb: ItemVerb,
}

/// What can be done with items.
pub enum ItemVerb {
    /// Show all items in a checklist.
    ShowAll(ShowAllItems),
    /// Create a new item in a checklist.
    New(NewItem),
    /// Delete an item in a checklist.
    Remove(RemoveItem),
    /// Toggle completion status of an item in a checklist.
    Toggle(ToggleItem),
}

/// Show all items in a checklist.
pub struct ShowAllItems {
    /// Checklist id for items to show.
    pub checklist_id: ChecklistId,
    /// When set, omit the item header.
    pub omit_header: bool,
}

/// Create a new item in a checklist.
pub struct NewItem {
    /// Checklist id in which to put this item.
    pub checklist_id: ChecklistId,
    /// Name of this item.
    pub name: String,
}

/// Delete an item in a checklist.
pub struct RemoveItem {
    /// Id of the item to remove.
    pub id: ItemId,
}

/// Toggle completion status of an item in a checklist.
pub struct ToggleItem {
    /// Id of the item to toggle.
    pub id: ItemId,
}

/// What a command asks the host to render.
#[derive(Debug)]
pub enum Output {
    /// One line per checklist, in store order.
    ShowChecklists(Vec<Checklist>),
    /// One checklist line.
    ShowChecklist(Checklist),
    /// An optional checklist header, then one line per item with its
    /// checked state.
    ShowItems(Option<Checklist>, Vec<(Item, bool)>),
    /// One item line with its checked state.
    ShowItem(Item, bool),
    /// Nothing to render.
    Silent,
}

/// Why a command aborts: a core failure, or a target the command insists on
/// that is not stored (which load itself reports as ordinary absence).
#[derive(Debug)]
pub enum CliError {
    /// The core failed; the two core failure kinds stay distinguishable.
    Core(Error),
    /// The named checklist is not stored.
    ChecklistNotFound,
    /// The named item is not stored.
    ItemNotFound,
}

impl CliError {
    /// The message the host prints before exiting nonzero.
    pub fn message(&self) -> (r: String)
        ensures
            *self is Core ==> r@ == self->Core_0.spec_message(),
            *self is ChecklistNotFound ==> r@ == "checklist not found"@,
            *self is ItemNotFound ==> r@ == "item not found"@,
    {
        match self {
            CliError::Core(e) => e.message(),
            CliError::ChecklistNotFound => "checklist not found".to_owned(),
            CliError::ItemNotFound => "item not found".to_owned(),
        }
    }
}

/// Everything `execute` guarantees, command by command: which store
/// transition happens, what is rendered, and exactly when a command aborts.
pub open spec fn execute_spec(pre: Db, post: Db, cli: Cli, r: Result<Output, CliError>) -> bool {
    match cli.noun {
        Noun::List(ListVerbAction { verb: ListVerb::ShowAll(ShowAllChecklists {  }) }) => {
            &&& post == pre
            &&& r is Ok
            &&& r->Ok_0 is ShowChecklists
            &&& r->Ok_0->ShowChecklists_0@ == pre.checklists@
        },
        Noun::List(ListVerbAction { verb: ListVerb::New(NewChecklist { name }) }) => {
            &&& r is Ok
            &&& r->Ok_0 is ShowChecklist
            &&& ({
                let c = r->Ok_0->ShowChecklist_0;
                &&& c.id.0 == pre.next_checklist_id
                &&& c.name@ == name@
                &&& post.checklists@ == pre.checklists@.push(c)
            })
            &&& post.items@ == pre.items@
            &&& post.next_checklist_id == pre.next_checklist_id + 1
            &&& post.next_item_id == pre.next_item_id
        },
        Noun::List(ListVerbAction { verb: ListVerb::Remove(RemoveChecklist { id }) }) => {
            &&& r == Ok::<Output, CliError>(Output::Silent)
            &&& post.checklists@ == remove_by(pre.checklists@, checklist_key(), id.0)
            &&& post.items@ == pre.items@
            &&& post.next_checklist_id == pre.next_checklist_id
            &&& post.next_item_id == pre.next_item_id
        },
        Noun::Item(
            ItemVerbAction { verb: ItemVerb::ShowAll(ShowAllItems { checklist_id, omit_header }) },
        ) => {
            let found = find_by(pre.checklists@, checklist_key(), checklist_id.0);
            let rows = items_of(pre.items@, checklist_id.0);
            &&& post == pre
            &&& if found is None {
                r == Err::<Output, CliError>(CliError::ChecklistNotFound)
            } else {
                &&& r is Ok
                &&& r->Ok_0 is ShowItems
                &&& r->Ok_0->ShowItems_0 == (if omit_header {
                    Option::<Checklist>::None
                } else {
                    Option::Some(found->Some_0)
                })
                &&& ({
                    let pairs = r->Ok_0->ShowItems_1;
                    &&& pairs@.len() == rows.len()
                    &&& forall|i: int|
                        0 <= i < rows.len() ==> (#[trigger] pairs@[i]).0 == row_entity(rows[i])
                            && pairs@[i].1 == rows[i].checked
                })
            }
        },
        Noun::Item(ItemVerbAction { verb: ItemVerb::New(NewItem { checklist_id, name }) }) => {
            let found = find_by(pre.checklists@, checklist_key(), checklist_id.0);
            &&& if found is None {
                &&& post == pre
                &&& r == Err::<Output, CliError>(CliError::ChecklistNotFound)
            } else {
                &&& r is Ok
                &&& r->Ok_0 is ShowItem
                &&& ({
                    let shown = r->Ok_0->ShowItem_0;
                    &&& r->Ok_0->ShowItem_1 == false
                    &&& shown.id.0 == pre.next_item_id
                    &&& shown.checklist == checklist_id
                    &&& shown.item@ == name@
                })
                &&& post.items@.len() == pre.items@.len() + 1
                &&& post.items@ == pre.items@.push(post.items@.last())
                &&& post.items@.last().id.0 == pre.next_item_id
                &&& post.items@.last().checklist == checklist_id
                &&& post.items@.last().item@ == name@
                &&& post.items@.last().checked == false
                &&& post.checklists@ == pre.checklists@
                &&& post.next_item_id == pre.next_item_id + 1
                &&& post.next_checklist_id == pre.next_checklist_id
            }
        },
        Noun::Item(ItemVerbAction { verb: ItemVerb::Remove(RemoveItem { id }) }) => {
            &&& r == Ok::<Output, CliError>(Output::Silent)
            &&& post.items@ == remove_by(pre.items@, item_key(), id.0)
            &&& post.checklists@ == pre.checklists@
            &&& post.next_checklist_id == pre.next_checklist_id
            &&& post.next_item_id == pre.next_item_id
        },
        Noun::Item(ItemVerbAction { verb: ItemVerb::Toggle(ToggleItem { id }) }) => {
            let found = find_by(pre.items@, item_key(), id.0);
            &&& if found is None {
                &&& post == pre
                &&& r == Err::<Output, CliError>(CliError::ItemNotFound)
            } else {
                let row = found->Some_0;
                &&& r is Ok
                &&& r->Ok_0 is ShowItem
                &&& r->Ok_0->ShowItem_0 == row_entity(row)
                &&& r->Ok_0->ShowItem_1 == !row.checked
                &&& post.items@ == set_checked_in(pre.items@, id.0, !row.checked)
                &&& post.checklists@ == pre.checklists@
                &&& post.next_checklist_id == pre.next_checklist_id
                &&& post.next_item_id == pre.next_item_id
            }
        },
    }
}

/// Runs one parsed command against the store and says what to render.
///
/// This is the whole behaviour of the front end between parsing and
/// rendering: every command maps to the entity operations `execute_spec`
/// names, a toggle re-reads the persisted state and writes its negation,
/// and the not-found aborts are exactly the two `execute_spec` lists.
pub fn execute(db: &mut Db, cli: Cli) -> (r: Result<Output, CliError>)
    requires
        old(db).wf(),
        cli.noun matches Noun::List(ListVerbAction { verb: ListVerb::New(_) }) ==> old(
            db,
        ).next_checklist_id < i64::MAX,
        cli.noun matches Noun::Item(ItemVerbAction { verb: ItemVerb::New(_) }) ==> old(
            db,
        ).next_item_id < i64::MAX,
    ensures
        final(db).wf(),
        execute_spec(*old(db), *final(db), cli, r),
{
    match cli.noun {
        Noun::List(ListVerbAction { verb: ListVerb::ShowAll(ShowAllChecklists {  }) }) => {
            match Checklist::all(db) {
                Ok(checklists) => Ok(Output::ShowChecklists(checklists)),
                Err(_) => unreached(),
            }
        },
        Noun::List(ListVerbAction { verb: ListVerb::New(NewChecklist { name }) }) => {
            match Checklist::new(db, name.as_str()) {
                Ok(c) => Ok(Output::ShowChecklist(c)),
                Err(_) => unreached(),
            }
        },
        Noun::List(ListVerbAction { verb: ListVerb::Remove(RemoveChecklist { id }) }) => {
            match Checklist::delete(db, id) {
                Ok(_) => Ok(Output::Silent),
                Err(_) => unreached(),
            }
        },
        Noun::Item(
            ItemVerbAction { verb: ItemVerb::ShowAll(ShowAllItems { checklist_id, omit_header }) },
        ) => {
            let checklist = match Checklist::load(db, checklist_id) {
                Ok(Some(c)) => c,
                Ok(None) => {
                    return Err(CliError::ChecklistNotFound);
                },
                Err(_) => unreached(),
            };
            proof {
                lemma_find_by_found(db.checklists@, checklist_key(), checklist_id.0);
            }
            let items = match checklist.items(db) {
                Ok(items) => items,
                Err(_) => unreached(),
            };
            let ghost rows = items_of(db.items@, checklist_id.0);
            let n = items.len();
            let mut pairs: Vec<(Item, bool)> = Vec::new();
            let mut i: usize = 0;
            while i < n
                invariant
                    i <= n,
                    n == items@.len(),
                    *db == *old(db),
                    old(db).wf(),
                    rows == items_of(db.items@, checklist_id.0),
                    items@ == row_entities(rows),
                    pairs@.len() == i,
                    forall|j: int|
                        0 <= j < i ==> (#[trigger] pairs@[j]).0 == row_entity(rows[j])
                            && pairs@[j].1 == rows[j].checked,
                decreases n - i,
            {
                proof {
                    assert(items@[i as int] == row_entity(rows[i as int]));
                    assert(rows.contains(rows[i as int]));
                    db.items@.lemma_filter_contains_rev(owned_by(checklist_id.0), rows[i as int]);
                    lemma_find_by_contained(db.items@, item_key(), rows[i as int]);
                }
                let item = &items[i];
                let checked = match item.is_set(db) {
                    Ok(b) => b,
                    Err(_) => unreached(),
                };
                pairs.push((item.clone(), checked));
                i += 1;
            }
            let header = if omit_header {
                None
            } else {
                Some(checklist)
            };
            Ok(Output::ShowItems(header, pairs))
        },
        Noun::Item(ItemVerbAction { verb: ItemVerb::New(NewItem { checklist_id, name }) }) => {
            match Checklist::load(db, checklist_id) {
                Ok(Some(_)) => {
                    proof {
                        lemma_find_by_found(db.checklists@, checklist_key(), checklist_id.0);
                        let c = find_by(db.checklists@, checklist_key(), checklist_id.0)->Some_0;
                        let j = choose|j: int|
                            0 <= j < db.checklists@.len() && db.checklists@[j] == c;
                        assert(checklist_key()(db.checklists@[j]) == checklist_id.0);
                    }
                },
                Ok(None) => {
                    return Err(CliError::ChecklistNotFound);
                },
                Err(_) => unreached(),
            }
            match Item::new(db, checklist_id, name) {
                Ok(item) => Ok(Output::ShowItem(item, false)),
                Err(_) => unreached(),
            }
        },
        Noun::Item(ItemVerbAction { verb: ItemVerb::Remove(RemoveItem { id }) }) => {
            match Item::delete(db, id) {
                Ok(_) => Ok(Output::Silent),
                Err(_) => unreached(),
            }
        },
        Noun::Item(ItemVerbAction { verb: ItemVerb::Toggle(ToggleItem { id }) }) => {
            let item = match Item::load(db, id) {
                Ok(Some(item)) => item,
                Ok(None) => {
                    return Err(CliError::ItemNotFound);
                },
                Err(_) => unreached(),
            };
            proof {
                lemma_find_by_found(db.items@, item_key(), id.0);
                lemma_find_by_absent(db.items@, item_key(), id.0);
            }
            let checked = match item.is_set(db) {
                Ok(b) => b,
                Err(_) => unreached(),
            };
            match item.set_checked(db, !checked) {
                Ok(_) => Ok(Output::ShowItem(item, !checked)),
                Err(_) => unreached(),
            }
        },
    }
}

} // verus!
