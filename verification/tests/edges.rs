use checklist::ChecklistId;
use checklist::Error;
use checklist::ItemId;
use checklist::boundary::checked_state_from_row;
use checklist::boundary::derive_key;
use checklist::boundary::update_result;

#[test]
fn a_read_row_is_the_state_and_no_row_is_missing() {
    assert!(matches!(checked_state_from_row(Some(true)), Ok(true)));
    assert!(matches!(checked_state_from_row(Some(false)), Ok(false)));
    assert!(matches!(checked_state_from_row(None), Err(Error::MissingItem)));
}

#[test]
fn a_zero_row_update_is_missing_and_any_touched_row_is_success() {
    assert!(matches!(update_result(0), Err(Error::MissingItem)));
    assert!(matches!(update_result(1), Ok(())));
    assert!(matches!(update_result(17), Ok(())));
}

#[test]
fn the_key_joins_the_machine_identity_with_dashes() {
    assert_eq!(derive_key("laptop", "x86_64", "sam"), "laptop-x86_64-sam");
    assert_eq!(derive_key("", "", ""), "--");
}

#[test]
fn error_messages_name_the_failure() {
    let storage = Error::storage("opening database");
    assert_eq!(storage.message(), "opening database");
    assert!(!storage.is_missing_item());
    let missing = Error::MissingItem;
    assert_eq!(
        missing.message(),
        "this item is not present in the db; it may have been deleted"
    );
    assert!(missing.is_missing_item());
}

#[test]
fn ids_convert_totally_to_and_from_the_bare_integer() {
    assert_eq!(ChecklistId::new(7).get(), 7);
    assert_eq!(ItemId::new(-3).get(), -3);
    assert_eq!(ChecklistId::new(i64::MAX).get(), i64::MAX);
    let a = ChecklistId::new(5);
    let b = ChecklistId::new(5);
    assert_eq!(a, b);
    assert!(ChecklistId::new(1) < ChecklistId::new(2));
    assert!(ItemId::new(1) < ItemId::new(2));
}
