use checklist::ChecklistId;
use checklist::Db;
use checklist::ItemId;
use checklist::cli::Cli;
use checklist::cli::CliError;
use checklist::cli::ItemVerb;
use checklist::cli::ItemVerbAction;
use checklist::cli::ListVerb;
use checklist::cli::ListVerbAction;
use checklist::cli::NewChecklist;
use checklist::cli::NewItem;
use checklist::cli::Output;
use checklist::cli::RemoveChecklist;
use checklist::cli::RemoveItem;
use checklist::cli::ShowAllChecklists;
use checklist::cli::ShowAllItems;
use checklist::cli::ToggleItem;
use checklist::cli::execute;

fn list_cmd(verb: ListVerb) -> Cli {
    Cli { noun: checklist::cli::Noun::List(ListVerbAction { verb }) }
}

fn item_cmd(verb: ItemVerb) -> Cli {
    Cli { noun: checklist::cli::Noun::Item(ItemVerbAction { verb }) }
}

fn new_list(db: &mut Db, name: &str) -> i64 {
    let cli = list_cmd(ListVerb::New(NewChecklist { name: name.to_owned() }));
    match execute(db, cli).unwrap() {
        Output::ShowChecklist(c) => c.id(),
        _ => panic!("creating a checklist shows the created checklist"),
    }
}

fn new_item(db: &mut Db, checklist_id: i64, name: &str) -> i64 {
    let cli = item_cmd(ItemVerb::New(NewItem {
        checklist_id: ChecklistId::new(checklist_id),
        name: name.to_owned(),
    }));
    match execute(db, cli).unwrap() {
        Output::ShowItem(item, checked) => {
            assert!(!checked);
            item.id()
        }
        _ => panic!("creating an item shows the created item"),
    }
}

#[test]
fn list_show_all_renders_every_checklist_in_order() {
    let mut db = Db::new();
    new_list(&mut db, "one");
    new_list(&mut db, "two");
    let cli = list_cmd(ListVerb::ShowAll(ShowAllChecklists {}));
    match execute(&mut db, cli).unwrap() {
        Output::ShowChecklists(all) => {
            assert_eq!(all.len(), 2);
            assert_eq!(all[0].name(), "one");
            assert_eq!(all[1].name(), "two");
        }
        _ => panic!("showing all checklists renders the checklist lines"),
    }
}

#[test]
fn list_new_shows_the_created_checklist() {
    let mut db = Db::new();
    let id = new_list(&mut db, "Groceries");
    assert_eq!(id, 1);
}

#[test]
fn list_remove_is_silent_and_removes() {
    let mut db = Db::new();
    let id = new_list(&mut db, "doomed");
    let cli = list_cmd(ListVerb::Remove(RemoveChecklist { id: ChecklistId::new(id) }));
    assert!(matches!(execute(&mut db, cli), Ok(Output::Silent)));
    let cli = list_cmd(ListVerb::ShowAll(ShowAllChecklists {}));
    match execute(&mut db, cli).unwrap() {
        Output::ShowChecklists(all) => assert!(all.is_empty()),
        _ => panic!("showing all checklists renders the checklist lines"),
    }
}

#[test]
fn item_show_all_renders_header_items_and_states() {
    let mut db = Db::new();
    let list_id = new_list(&mut db, "Trip");
    new_item(&mut db, list_id, "Pack bag");
    let item_id = new_item(&mut db, list_id, "Lock door");
    let toggle = item_cmd(ItemVerb::Toggle(ToggleItem { id: ItemId::new(item_id) }));
    execute(&mut db, toggle).unwrap();

    let show = item_cmd(ItemVerb::ShowAll(ShowAllItems {
        checklist_id: ChecklistId::new(list_id),
        omit_header: false,
    }));
    match execute(&mut db, show).unwrap() {
        Output::ShowItems(header, pairs) => {
            assert_eq!(header.unwrap().name(), "Trip");
            assert_eq!(pairs.len(), 2);
            assert_eq!(pairs[0].0.item(), "Pack bag");
            assert!(!pairs[0].1);
            assert_eq!(pairs[1].0.item(), "Lock door");
            assert!(pairs[1].1);
        }
        _ => panic!("showing items renders the item lines"),
    }

    let show = item_cmd(ItemVerb::ShowAll(ShowAllItems {
        checklist_id: ChecklistId::new(list_id),
        omit_header: true,
    }));
    match execute(&mut db, show).unwrap() {
        Output::ShowItems(header, pairs) => {
            assert!(header.is_none());
            assert_eq!(pairs.len(), 2);
        }
        _ => panic!("showing items renders the item lines"),
    }
}

#[test]
fn item_show_all_aborts_when_the_checklist_is_missing() {
    let mut db = Db::new();
    let show = item_cmd(ItemVerb::ShowAll(ShowAllItems {
        checklist_id: ChecklistId::new(7),
        omit_header: false,
    }));
    let err = execute(&mut db, show).unwrap_err();
    assert!(matches!(err, CliError::ChecklistNotFound));
    assert_eq!(err.message(), "checklist not found");
}

#[test]
fn item_new_aborts_when_the_checklist_is_missing() {
    let mut db = Db::new();
    let cli = item_cmd(ItemVerb::New(NewItem {
        checklist_id: ChecklistId::new(7),
        name: "stray".to_owned(),
    }));
    assert!(matches!(execute(&mut db, cli), Err(CliError::ChecklistNotFound)));
}

#[test]
fn item_remove_is_silent_and_removes() {
    let mut db = Db::new();
    let list_id = new_list(&mut db, "Trip");
    let item_id = new_item(&mut db, list_id, "Pack bag");
    let cli = item_cmd(ItemVerb::Remove(RemoveItem { id: ItemId::new(item_id) }));
    assert!(matches!(execute(&mut db, cli), Ok(Output::Silent)));
    let toggle = item_cmd(ItemVerb::Toggle(ToggleItem { id: ItemId::new(item_id) }));
    let err = execute(&mut db, toggle).unwrap_err();
    assert!(matches!(err, CliError::ItemNotFound));
    assert_eq!(err.message(), "item not found");
}

#[test]
fn toggle_flips_the_persisted_state_each_time() {
    let mut db = Db::new();
    let list_id = new_list(&mut db, "Trip");
    let item_id = new_item(&mut db, list_id, "Pack bag");
    for round in 0..4 {
        let toggle = item_cmd(ItemVerb::Toggle(ToggleItem { id: ItemId::new(item_id) }));
        match execute(&mut db, toggle).unwrap() {
            Output::ShowItem(item, checked) => {
                assert_eq!(item.id(), item_id);
                assert_eq!(checked, round % 2 == 0);
            }
            _ => panic!("toggling shows the item with its new state"),
        }
    }
}
