use product_category::backend::{Connection, StoreError, TransactionManager};
use product_category::category::{NewProductCategory, ProductCategory};
use product_category::mock::connections::{
    AlreadyInTransactionConnection, NotFoundErrorConnection, RollBackTransactionConnection,
};
use product_category::mock::transactions::OkayTransactionManager;

fn sample_entity() -> ProductCategory {
    ProductCategory { id: 1, name: "testing".to_string(), version: 0 }
}

#[test]
fn okay_transaction_manager_always_succeeds_at_depth_one() {
    let manager = OkayTransactionManager;
    assert_eq!(manager.begin_transaction(), Ok(()));
    assert_eq!(manager.commit_transaction(), Ok(()));
    assert_eq!(manager.rollback_transaction(), Ok(()));
    assert_eq!(manager.get_transaction_depth(), 1);
}

#[test]
fn busy_connection_fails_every_store_operation() {
    let mut conn = AlreadyInTransactionConnection { manager: OkayTransactionManager };
    let created = NewProductCategory::new("testing").create(&mut conn);
    assert!(matches!(created, Err(StoreError::AlreadyInTransaction)));
    let updated = sample_entity().update(&mut conn);
    assert!(matches!(updated, Err(StoreError::AlreadyInTransaction)));
    let deleted = sample_entity().delete(&mut conn);
    assert_eq!(deleted, Err(StoreError::AlreadyInTransaction));
}

#[test]
fn rollback_connection_fails_every_store_operation() {
    let mut conn = RollBackTransactionConnection { manager: OkayTransactionManager };
    let created = NewProductCategory::new("testing").create(&mut conn);
    assert!(matches!(created, Err(StoreError::TransactionMustRollback)));
    let updated = sample_entity().update(&mut conn);
    assert!(matches!(updated, Err(StoreError::TransactionMustRollback)));
    let deleted = sample_entity().delete(&mut conn);
    assert_eq!(deleted, Err(StoreError::TransactionMustRollback));
}

#[test]
fn not_found_connection_yields_lock_miss_outcomes() {
    let mut conn = NotFoundErrorConnection { manager: OkayTransactionManager };
    let created = NewProductCategory::new("testing").create(&mut conn);
    assert!(matches!(created, Err(StoreError::Backend)));
    let updated = sample_entity().update(&mut conn);
    assert!(matches!(updated, Ok(None)));
    let deleted = sample_entity().delete(&mut conn);
    assert_eq!(deleted, Ok(0));
    assert!(conn.load_all().is_err());
}
