use product_item_service::item_service::{create_item, delete_item, get_item_by_id, update_item};
use product_item_service::models::{
    CreateProductModal, ErrorModel, GetItemModel, NotFoundErrorModel, UpdateItemModel,
};
use product_item_service::product_service::create_product;
use product_item_service::store::Store;

fn store_with_product() -> Store {
    let mut store = Store::new();
    let r = create_product(
        &mut store,
        CreateProductModal { name: "Chair".to_owned(), description: None },
    );
    assert!(matches!(r, Ok(_)));
    store
}

fn item_request(product_id: i32, color: &str, size: &str, stock: i32) -> GetItemModel {
    GetItemModel { product_id, color: color.to_owned(), size: size.to_owned(), stock }
}

#[test]
fn item_validation_names_the_first_failing_field() {
    let mut store = store_with_product();
    // All four fields invalid: the product id is reported first.
    match create_item(&mut store, item_request(0, "", "", 0)) {
        Err(ErrorModel::ValidationError(m)) => assert_eq!(m, "Product ID is required"),
        _ => panic!("expected a validation error"),
    }
    match create_item(&mut store, item_request(1, "", "", 0)) {
        Err(ErrorModel::ValidationError(m)) => assert_eq!(m, "Color is required"),
        _ => panic!("expected a validation error"),
    }
    match create_item(&mut store, item_request(1, "red", "", 0)) {
        Err(ErrorModel::ValidationError(m)) => assert_eq!(m, "Size is required"),
        _ => panic!("expected a validation error"),
    }
    match create_item(&mut store, item_request(1, "red", "M", 0)) {
        Err(ErrorModel::ValidationError(m)) => assert_eq!(m, "Stock is required"),
        _ => panic!("expected a validation error"),
    }
}

#[test]
fn item_referencing_no_product_is_a_store_failure() {
    let mut store = store_with_product();
    match create_item(&mut store, item_request(42, "red", "M", 5)) {
        Err(ErrorModel::DatabaseError(m)) => assert_eq!(m, "Failed to create item"),
        _ => panic!("the foreign key must refuse the insert"),
    }
}

#[test]
fn create_then_get_round_trips_every_field() {
    let mut store = store_with_product();
    let created = match create_item(&mut store, item_request(1, "red", "M", 5)) {
        Ok(item) => item,
        Err(_) => panic!("expected success"),
    };
    assert_eq!(created.id, Some(1));
    let fetched = match get_item_by_id(&store, 1) {
        Ok(item) => item,
        Err(_) => panic!("expected success"),
    };
    assert_eq!(fetched.id, Some(1));
    assert_eq!(fetched.product_id, 1);
    assert_eq!(fetched.color, "red");
    assert_eq!(fetched.size, "M");
    assert_eq!(fetched.stock, 5);
}

#[test]
fn get_missing_item_is_not_found() {
    let store = store_with_product();
    match get_item_by_id(&store, 3) {
        Err(NotFoundErrorModel::NotFoundError(m)) => assert_eq!(m, "Item not found"),
        _ => panic!("expected not found"),
    }
}

#[test]
fn update_item_overwrites_only_supplied_fields() {
    let mut store = store_with_product();
    let r = create_item(&mut store, item_request(1, "red", "M", 5));
    assert!(matches!(r, Ok(_)));
    let updated = match update_item(
        &mut store,
        1,
        UpdateItemModel { size: None, color: None, stock: Some(9) },
    ) {
        Ok(item) => item,
        Err(_) => panic!("expected success"),
    };
    assert_eq!(updated.color, "red");
    assert_eq!(updated.size, "M");
    assert_eq!(updated.stock, 9);

    let updated = match update_item(
        &mut store,
        1,
        UpdateItemModel { size: Some("L".to_owned()), color: None, stock: None },
    ) {
        Ok(item) => item,
        Err(_) => panic!("expected success"),
    };
    assert_eq!(updated.color, "red");
    assert_eq!(updated.size, "L");
    assert_eq!(updated.stock, 9);
}

#[test]
fn update_missing_item_is_not_found() {
    let mut store = store_with_product();
    let r = update_item(
        &mut store,
        8,
        UpdateItemModel { size: None, color: Some("blue".to_owned()), stock: None },
    );
    match r {
        Err(NotFoundErrorModel::NotFoundError(m)) => assert_eq!(m, "Item not found"),
        _ => panic!("expected not found"),
    }
}

#[test]
fn delete_missing_item_is_not_found_not_a_store_failure() {
    let mut store = store_with_product();
    match delete_item(&mut store, 5) {
        Err(NotFoundErrorModel::NotFoundError(m)) => assert_eq!(m, "Item not found"),
        Err(NotFoundErrorModel::DatabaseError(_)) => {
            panic!("a missing id must not look like a store failure")
        }
        _ => panic!("expected not found"),
    }
}

#[test]
fn delete_item_returns_true_and_removes_it() {
    let mut store = store_with_product();
    let r = create_item(&mut store, item_request(1, "red", "M", 5));
    assert!(matches!(r, Ok(_)));
    match delete_item(&mut store, 1) {
        Ok(removed) => assert!(removed),
        Err(_) => panic!("expected success"),
    }
    assert!(matches!(
        get_item_by_id(&store, 1),
        Err(NotFoundErrorModel::NotFoundError(_))
    ));
}
