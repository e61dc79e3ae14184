use product_category::backend::Connection;
use product_category::category::{NewProductCategory, ProductCategory};
use product_category::mock::transactions::OkayTransactionManager;
use product_category::table::InMemoryConnection;

#[test]
fn test_can_create_new_product_category_in_db() {
    let mut conn = InMemoryConnection::new(OkayTransactionManager);
    let test_category = NewProductCategory { name: "testing".to_string() };
    let saved_product_category = test_category.create(&mut conn).unwrap();

    let product_categories: Vec<ProductCategory> = conn.load_all().unwrap();
    assert_eq!(product_categories.len(), 1);
    assert_eq!(saved_product_category.name, String::from("testing"));
    assert_eq!(saved_product_category.version, 0);
}

#[test]
fn optimistically_locked_product_category_gets_saved_correctly_when_no_conflict() {
    let mut conn = InMemoryConnection::new(OkayTransactionManager);
    let test_category = NewProductCategory { name: "testing".to_string() };
    let mut saved_product_category = test_category.create(&mut conn).unwrap();
    saved_product_category.name = "testing_updated".to_string();
    let updated_product_category = saved_product_category.update(&mut conn);

    if let Ok(Some(pc)) = updated_product_category {
        assert_eq!(pc.name, "testing_updated".to_string());
        assert_eq!(pc.version, 1);
        assert_eq!(conn.load_all().unwrap().len(), 1);
    } else {
        panic!("Apparently there was an error with the database");
    }
}

#[test]
fn optimistically_locked_product_category_does_not_get_saved_on_conflict() {
    let mut conn = InMemoryConnection::new(OkayTransactionManager);

    let first_cat = NewProductCategory { name: "first".to_string() };
    let mut first_cat = first_cat.create(&mut conn).unwrap();
    let mut first_cat_second = conn.load_all().unwrap().remove(0);
    first_cat.name = "first_updated".to_string();
    first_cat_second.name = "first_updated".to_string();

    let first_cat_updated = first_cat.update(&mut conn).unwrap();
    let first_cat_second_updated = first_cat_second.update(&mut conn).unwrap();

    if !(first_cat_updated.is_some() && first_cat_second_updated.is_none()) {
        panic!("Something did not work with optimistic locking");
    }
}

#[test]
fn new_product_category_saves_string_as_lowercase() {
    let new_product_category = NewProductCategory::new("FiRsTcAtEgOrY");
    assert_eq!(new_product_category.name, "firstcategory".to_string());
}

#[test]
fn product_category_can_be_deleted_from_db_when_version_did_not_change() {
    let mut conn = InMemoryConnection::new(OkayTransactionManager);
    let first_product_category = NewProductCategory::new("first").create(&mut conn).unwrap();

    let _second_product_category = NewProductCategory::new("second").create(&mut conn).unwrap();

    let deletion = first_product_category.delete(&mut conn);

    assert_eq!(1, conn.load_all().unwrap().len());
    assert_eq!(Ok(1), deletion);
}

#[test]
fn product_category_can_not_be_deleted_from_db_if_it_was_updated_since_read() {
    let mut conn = InMemoryConnection::new(OkayTransactionManager);
    let mut first_cat = NewProductCategory::new("first").create(&mut conn).unwrap();
    let first_cat_second = conn.load_all().unwrap().remove(0);

    first_cat.name = "first_updated".to_string();
    let _ = first_cat.update(&mut conn);

    let deletion = first_cat_second.delete(&mut conn);
    assert_eq!(Ok(0), deletion);
}
