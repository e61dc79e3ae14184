use product_category::backend::{Connection, StoreError};
use product_category::category::NewProductCategory;
use product_category::mock::transactions::OkayTransactionManager;
use product_category::table::InMemoryConnection;

#[test]
fn creating_mixed_case_name_yields_normalized_entity() {
    let mut conn = InMemoryConnection::new(OkayTransactionManager);
    let saved = NewProductCategory::new("TeSt").create(&mut conn).unwrap();
    assert_eq!(saved.name, "test".to_string());
    assert_eq!(saved.version, 0);
    assert_eq!(saved.id, 1);
    assert_eq!(conn.load_all().unwrap().len(), 1);
}

#[test]
fn duplicate_create_is_absorbed_into_one_row() {
    let mut conn = InMemoryConnection::new(OkayTransactionManager);
    let first = NewProductCategory::new("Test").create(&mut conn).unwrap();
    let second = NewProductCategory::new("test").create(&mut conn).unwrap();
    assert_eq!(conn.load_all().unwrap().len(), 1);
    assert_eq!(second.id, first.id);
    assert_eq!(second.name, "test".to_string());
    assert_eq!(second.version, 0);
}

#[test]
fn stale_update_keeps_first_writers_name() {
    let mut conn = InMemoryConnection::new(OkayTransactionManager);
    let mut winner = NewProductCategory::new("first").create(&mut conn).unwrap();
    let mut loser = conn.load_all().unwrap().remove(0);

    winner.name = "first_updated".to_string();
    let won = winner.update(&mut conn).unwrap();
    assert_eq!(won.as_ref().map(|c| c.version), Some(1));

    loser.name = "second_try".to_string();
    let lost = loser.update(&mut conn).unwrap();
    assert!(lost.is_none());

    let rows = conn.load_all().unwrap();
    assert_eq!(rows.len(), 1);
    assert_eq!(rows[0].name, "first_updated".to_string());
}

#[test]
fn stale_delete_leaves_row_at_newer_version() {
    let mut conn = InMemoryConnection::new(OkayTransactionManager);
    let mut current = NewProductCategory::new("first").create(&mut conn).unwrap();
    let stale = conn.load_all().unwrap().remove(0);

    current.name = "first_updated".to_string();
    let _ = current.update(&mut conn);

    assert_eq!(stale.delete(&mut conn), Ok(0));
    let rows = conn.load_all().unwrap();
    assert_eq!(rows.len(), 1);
    assert_eq!(rows[0].version, 1);
}

#[test]
fn updating_to_a_taken_name_is_a_backend_error() {
    let mut conn = InMemoryConnection::new(OkayTransactionManager);
    let _first = NewProductCategory::new("alpha").create(&mut conn).unwrap();
    let mut second = NewProductCategory::new("beta").create(&mut conn).unwrap();

    second.name = "alpha".to_string();
    assert!(matches!(second.update(&mut conn), Err(StoreError::Backend)));

    let rows = conn.load_all().unwrap();
    assert_eq!(rows.len(), 2);
    assert_eq!(rows[1].name, "beta".to_string());
}

#[test]
fn load_all_preserves_insertion_order() {
    let mut conn = InMemoryConnection::new(OkayTransactionManager);
    let _ = NewProductCategory::new("alpha").create(&mut conn).unwrap();
    let _ = NewProductCategory::new("beta").create(&mut conn).unwrap();
    let _ = NewProductCategory::new("gamma").create(&mut conn).unwrap();
    let names: Vec<String> = conn.load_all().unwrap().into_iter().map(|c| c.name).collect();
    assert_eq!(names, vec!["alpha".to_string(), "beta".to_string(), "gamma".to_string()]);
}

#[test]
fn entity_equals_unsaved_with_same_normalized_name() {
    let mut conn = InMemoryConnection::new(OkayTransactionManager);
    let saved = NewProductCategory::new("TeSt").create(&mut conn).unwrap();
    assert!(saved.equal(&NewProductCategory::new("TEST")));
    assert!(!saved.equal(&NewProductCategory::new("other")));
}

#[test]
fn second_delete_of_same_version_removes_nothing() {
    let mut conn = InMemoryConnection::new(OkayTransactionManager);
    let winner = NewProductCategory::new("first").create(&mut conn).unwrap();
    let loser = conn.load_all().unwrap().remove(0);

    assert_eq!(winner.delete(&mut conn), Ok(1));
    assert_eq!(loser.delete(&mut conn), Ok(0));
    assert!(conn.load_all().unwrap().is_empty());
}
