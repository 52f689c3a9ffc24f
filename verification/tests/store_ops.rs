use items_api::store::ItemStore;

#[test]
fn create_then_get_returns_same_item() {
    let mut store = ItemStore::new();
    let created = store.create(String::from("pen"), String::from("blue"));
    let found = store.get_by_id(created.id).expect("created id must be found");
    assert_eq!(found.id, created.id);
    assert_eq!(found.name, "pen");
    assert_eq!(found.description, "blue");
}

#[test]
fn absent_ids_yield_not_found_not_error() {
    let mut store = ItemStore::new();
    assert!(store.get_by_id(42).is_none());
    assert!(store.update_by_id(42, String::from("x"), String::from("y")).is_none());
    assert!(!store.delete_by_id(42));
}

#[test]
fn deleted_ids_yield_not_found_not_error() {
    let mut store = ItemStore::new();
    let created = store.create(String::from("pen"), String::from("blue"));
    assert!(store.delete_by_id(created.id));
    assert!(store.get_by_id(created.id).is_none());
    assert!(store.update_by_id(created.id, String::from("x"), String::from("y")).is_none());
    assert!(!store.delete_by_id(created.id));
}

#[test]
fn delete_all_counts_rows_and_empties_store() {
    let mut store = ItemStore::new();
    store.create(String::from("a"), String::from("1"));
    store.create(String::from("b"), String::from("2"));
    store.create(String::from("c"), String::from("3"));
    assert_eq!(store.delete_all(), 3);
    assert!(store.list().is_empty());
    assert_eq!(store.delete_all(), 0);
}

#[test]
fn update_changes_exactly_the_targeted_row() {
    let mut store = ItemStore::new();
    let first = store.create(String::from("pen"), String::from("blue"));
    let second = store.create(String::from("cup"), String::from("red"));
    let updated = store
        .update_by_id(first.id, String::from("pencil"), String::from("green"))
        .expect("existing id must be updated");
    assert_eq!(updated.id, first.id);
    assert_eq!(updated.name, "pencil");
    assert_eq!(updated.description, "green");
    let rows = store.list();
    assert_eq!(rows.len(), 2);
    assert_eq!(rows[0].id, first.id);
    assert_eq!(rows[0].name, "pencil");
    assert_eq!(rows[0].description, "green");
    assert_eq!(rows[1].id, second.id);
    assert_eq!(rows[1].name, "cup");
    assert_eq!(rows[1].description, "red");
}

#[test]
fn delete_by_id_reports_true_then_false() {
    let mut store = ItemStore::new();
    let created = store.create(String::from("pen"), String::from("blue"));
    assert!(store.delete_by_id(created.id));
    assert!(!store.delete_by_id(created.id));
}

#[test]
fn list_on_empty_store_is_empty() {
    let store = ItemStore::new();
    assert!(store.list().is_empty());
}

#[test]
fn ids_are_unique_and_never_reused() {
    let mut store = ItemStore::new();
    let first = store.create(String::from("pen"), String::from("blue"));
    assert!(store.delete_by_id(first.id));
    let second = store.create(String::from("pen"), String::from("blue"));
    assert_ne!(second.id, first.id);
    let third = store.create(String::from("pen"), String::from("blue"));
    assert_ne!(third.id, second.id);
}

#[test]
fn equal_names_and_descriptions_are_allowed() {
    let mut store = ItemStore::new();
    let first = store.create(String::from("pen"), String::from("blue"));
    let second = store.create(String::from("pen"), String::from("blue"));
    assert_ne!(first.id, second.id);
    assert_eq!(store.list().len(), 2);
}
