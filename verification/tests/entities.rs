use checklist::Checklist;
use checklist::ChecklistId;
use checklist::Db;
use checklist::Error;
use checklist::Item;
use checklist::ItemId;
use checklist::store::schema_statements;

#[test]
fn schema_has_one_guarded_statement_per_table() {
    let statements = schema_statements();
    assert_eq!(statements.len(), 2);
    for statement in &statements {
        assert!(statement.starts_with("CREATE TABLE IF NOT EXISTS "));
        assert!(!statement.contains("DROP"));
        assert!(!statement.contains("DELETE"));
    }
    assert!(statements[0].contains("checklists"));
    assert!(statements[1].contains("items"));
}

#[test]
fn reapplying_the_schema_errors_never_and_loses_nothing() {
    let mut db = Db::new();
    let created = Checklist::new(&mut db, "Groceries").unwrap();
    assert!(db.ensure_schema().is_ok());
    assert!(db.ensure_schema().is_ok());
    let loaded = Checklist::load(&db, created.id).unwrap().unwrap();
    assert_eq!(loaded.id.0, created.id.0);
    assert_eq!(loaded.name, "Groceries");
    assert_eq!(Checklist::all(&db).unwrap().len(), 1);
}

#[test]
fn create_then_load_round_trips_id_and_name() {
    let mut db = Db::new();
    let created = Checklist::new(&mut db, "Groceries").unwrap();
    let loaded = Checklist::load(&db, created.id).unwrap().unwrap();
    assert_eq!(loaded.id.0, created.id.0);
    assert_eq!(loaded.name, "Groceries");
}

#[test]
fn all_lists_exactly_the_created_checklists_without_duplicates() {
    let mut db = Db::new();
    let a = Checklist::new(&mut db, "alpha").unwrap();
    let b = Checklist::new(&mut db, "beta").unwrap();
    let c = Checklist::new(&mut db, "alpha").unwrap();
    let all = Checklist::all(&db).unwrap();
    assert_eq!(all.len(), 3);
    assert_eq!(all[0].id.0, a.id.0);
    assert_eq!(all[1].id.0, b.id.0);
    assert_eq!(all[2].id.0, c.id.0);
    assert_eq!(all[0].name, "alpha");
    assert_eq!(all[1].name, "beta");
    assert_eq!(all[2].name, "alpha");
    for i in 0..all.len() {
        for j in 0..i {
            assert_ne!(all[i].id.0, all[j].id.0);
        }
    }
}

#[test]
fn ids_observed_later_equal_the_ids_create_returned() {
    let mut db = Db::new();
    let list = Checklist::new(&mut db, "Chores").unwrap();
    let item = Item::new(&mut db, list.id, "sweep".to_owned()).unwrap();
    let loaded_list = Checklist::load(&db, list.id).unwrap().unwrap();
    assert_eq!(loaded_list.id.0, list.id.0);
    let loaded_item = Item::load(&db, item.id).unwrap().unwrap();
    assert_eq!(loaded_item.id.0, item.id.0);
    assert_eq!(loaded_item.checklist.0, list.id.0);
    let listed = loaded_list.items(&db).unwrap();
    assert_eq!(listed.len(), 1);
    assert_eq!(listed[0].id.0, item.id.0);
}

#[test]
fn a_fresh_item_is_unchecked() {
    let mut db = Db::new();
    let list = Checklist::new(&mut db, "Trip").unwrap();
    let item = Item::new(&mut db, list.id, "Pack bag".to_owned()).unwrap();
    assert_eq!(item.is_set(&db).unwrap(), false);
}

#[test]
fn set_checked_then_is_set_never_desynchronize() {
    let mut db = Db::new();
    let list = Checklist::new(&mut db, "Trip").unwrap();
    let item = Item::new(&mut db, list.id, "Pack bag".to_owned()).unwrap();
    item.set_checked(&mut db, true).unwrap();
    assert_eq!(item.is_set(&db).unwrap(), true);
    item.set_checked(&mut db, false).unwrap();
    assert_eq!(item.is_set(&db).unwrap(), false);
    for round in 0..6 {
        let value = round % 2 == 0;
        item.set_checked(&mut db, value).unwrap();
        assert_eq!(item.is_set(&db).unwrap(), value);
    }
}

#[test]
fn reads_and_writes_on_a_deleted_item_fail_as_missing() {
    let mut db = Db::new();
    let list = Checklist::new(&mut db, "Trip").unwrap();
    let item = Item::new(&mut db, list.id, "Pack bag".to_owned()).unwrap();
    Item::delete(&mut db, item.id).unwrap();
    assert!(matches!(item.is_set(&db), Err(Error::MissingItem)));
    assert!(matches!(item.set_checked(&mut db, true), Err(Error::MissingItem)));
}

#[test]
fn loading_a_nonexistent_id_is_absence_not_an_error() {
    let mut db = Db::new();
    Checklist::new(&mut db, "only").unwrap();
    assert!(Checklist::load(&db, ChecklistId::new(999)).unwrap().is_none());
    assert!(Item::load(&db, ItemId::new(999)).unwrap().is_none());
}

#[test]
fn deleting_a_nonexistent_id_is_a_silent_no_op() {
    let mut db = Db::new();
    let list = Checklist::new(&mut db, "keep").unwrap();
    assert!(Checklist::delete(&mut db, ChecklistId::new(42)).is_ok());
    assert!(Item::delete(&mut db, ItemId::new(42)).is_ok());
    assert_eq!(Checklist::all(&db).unwrap().len(), 1);
    assert!(Checklist::load(&db, list.id).unwrap().is_some());
}

#[test]
fn items_lists_exactly_the_items_of_the_checklist_whatever_the_order() {
    let mut db = Db::new();
    let first = Checklist::new(&mut db, "first").unwrap();
    let second = Checklist::new(&mut db, "second").unwrap();
    let a = Item::new(&mut db, first.id, "a".to_owned()).unwrap();
    let b = Item::new(&mut db, second.id, "b".to_owned()).unwrap();
    let c = Item::new(&mut db, first.id, "c".to_owned()).unwrap();
    let d = Item::new(&mut db, second.id, "d".to_owned()).unwrap();

    let of_first = first.items(&db).unwrap();
    assert_eq!(of_first.len(), 2);
    assert_eq!(of_first[0].id.0, a.id.0);
    assert_eq!(of_first[0].item, "a");
    assert_eq!(of_first[1].id.0, c.id.0);
    assert_eq!(of_first[1].item, "c");

    let of_second = second.items(&db).unwrap();
    assert_eq!(of_second.len(), 2);
    assert_eq!(of_second[0].id.0, b.id.0);
    assert_eq!(of_second[1].id.0, d.id.0);
    for item in &of_first {
        assert_eq!(item.checklist.0, first.id.0);
    }
    for item in &of_second {
        assert_eq!(item.checklist.0, second.id.0);
    }
}

#[test]
fn deleting_a_checklist_does_not_cascade_to_its_items() {
    let mut db = Db::new();
    let list = Checklist::new(&mut db, "doomed").unwrap();
    let item = Item::new(&mut db, list.id, "orphan".to_owned()).unwrap();
    Checklist::delete(&mut db, list.id).unwrap();
    assert!(Checklist::load(&db, list.id).unwrap().is_none());
    let orphan = Item::load(&db, item.id).unwrap().unwrap();
    assert_eq!(orphan.checklist.0, list.id.0);
    assert_eq!(orphan.is_set(&db).unwrap(), false);
}

#[test]
fn full_scenario_from_creation_to_missing_item() {
    let mut db = Db::new();
    let trip = Checklist::new(&mut db, "Trip").unwrap();
    assert_eq!(trip.id.0, 1);

    let pack = Item::new(&mut db, trip.id, "Pack bag".to_owned()).unwrap();
    assert_eq!(pack.id.0, 1);
    assert_eq!(pack.checklist.0, 1);
    assert_eq!(pack.is_set(&db).unwrap(), false);

    let current = pack.is_set(&db).unwrap();
    pack.set_checked(&mut db, !current).unwrap();
    assert_eq!(pack.is_set(&db).unwrap(), true);

    let listed = trip.items(&db).unwrap();
    assert_eq!(listed.len(), 1);
    assert_eq!(listed[0].item, "Pack bag");
    assert_eq!(listed[0].is_set(&db).unwrap(), true);

    Item::delete(&mut db, pack.id).unwrap();
    assert!(matches!(pack.is_set(&db), Err(Error::MissingItem)));
}

#[test]
fn getters_expose_the_bare_integers_and_copies() {
    let mut db = Db::new();
    let list = Checklist::new(&mut db, "Trip").unwrap();
    let item = Item::new(&mut db, list.id, "Pack bag".to_owned()).unwrap();
    assert_eq!(list.id(), 1);
    assert_eq!(list.name(), "Trip");
    assert_eq!(item.id(), 1);
    assert_eq!(item.checklist_id(), 1);
    assert_eq!(item.item(), "Pack bag");
}
