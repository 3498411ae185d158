use product_item_service::models::{CreateProductModal, ErrorModel, NotFoundErrorModel, UpdateProductModal};
use product_item_service::product_service::{
    create_product, delete_product, get_all_products, update_product,
};
use product_item_service::store::Store;

fn make_product(store: &mut Store, name: &str, description: Option<&str>) -> i32 {
    let r = create_product(
        store,
        CreateProductModal { name: name.to_owned(), description: description.map(|d| d.to_owned()) },
    );
    match r {
        Ok(p) => p.id,
        Err(_) => panic!("product creation failed"),
    }
}

#[test]
fn create_product_assigns_ids_and_timestamps() {
    let mut store = Store::new();
    let r = create_product(
        &mut store,
        CreateProductModal { name: "Chair".to_owned(), description: Some("wooden".to_owned()) },
    );
    let p = match r {
        Ok(p) => p,
        Err(_) => panic!("expected success"),
    };
    assert_eq!(p.id, 1);
    assert_eq!(p.name, "Chair");
    assert_eq!(p.description.as_deref(), Some("wooden"));
    assert_eq!(p.created_at, p.updated_at);
    assert!(p.created_at >= 0);

    let q = match create_product(
        &mut store,
        CreateProductModal { name: "Table".to_owned(), description: None },
    ) {
        Ok(q) => q,
        Err(_) => panic!("expected success"),
    };
    assert_eq!(q.id, 2);
}

#[test]
fn create_product_empty_name_is_rejected_before_the_store() {
    let mut store = Store::new();
    let r = create_product(
        &mut store,
        CreateProductModal { name: String::new(), description: Some("ignored".to_owned()) },
    );
    match r {
        Err(ErrorModel::ValidationError(m)) => assert_eq!(m, "Name is required"),
        _ => panic!("expected a validation error"),
    }
    // The store was never reached: the listing is still empty and the
    // next creation still gets the first id.
    let listing = match get_all_products(&store) {
        Ok(v) => v,
        Err(_) => panic!("listing failed"),
    };
    assert_eq!(listing.len(), 0);
    assert_eq!(make_product(&mut store, "Chair", None), 1);
}

#[test]
fn get_all_products_on_empty_store_is_an_empty_list() {
    let store = Store::new();
    match get_all_products(&store) {
        Ok(v) => assert_eq!(v.len(), 0),
        Err(_) => panic!("an empty store must list successfully"),
    }
}

#[test]
fn update_with_name_only_keeps_description_and_created_at() {
    let mut store = Store::new();
    let id = make_product(&mut store, "Chair", None);
    let before = match get_all_products(&store) {
        Ok(v) => v,
        Err(_) => panic!("listing failed"),
    };
    assert_eq!(before[0].description, None);

    let r = update_product(
        &mut store,
        id,
        UpdateProductModal { name: Some("Stool".to_owned()), description: None },
    );
    let p = match r {
        Ok(p) => p,
        Err(_) => panic!("expected success"),
    };
    assert_eq!(p.name, "Stool");
    assert_eq!(p.description, None);
    assert!(p.updated_at >= p.created_at);
}

#[test]
fn update_always_overwrites_description() {
    // The documented quirk: a product update rewrites `description` with
    // whatever the request carries, so an absent description clears a
    // stored one.
    let mut store = Store::new();
    let id = make_product(&mut store, "Chair", Some("wooden"));
    let r = update_product(
        &mut store,
        id,
        UpdateProductModal { name: None, description: None },
    );
    let p = match r {
        Ok(p) => p,
        Err(_) => panic!("expected success"),
    };
    assert_eq!(p.name, "Chair");
    assert_eq!(p.description, None);

    let r = update_product(
        &mut store,
        id,
        UpdateProductModal { name: None, description: Some("metal".to_owned()) },
    );
    let p = match r {
        Ok(p) => p,
        Err(_) => panic!("expected success"),
    };
    assert_eq!(p.description.as_deref(), Some("metal"));
}

#[test]
fn update_missing_product_is_not_found() {
    let mut store = Store::new();
    let r = update_product(
        &mut store,
        7,
        UpdateProductModal { name: Some("Stool".to_owned()), description: None },
    );
    match r {
        Err(NotFoundErrorModel::NotFoundError(m)) => assert_eq!(m, "Product not found"),
        _ => panic!("expected not found"),
    }
}

#[test]
fn delete_missing_product_is_not_found_not_a_store_failure() {
    let mut store = Store::new();
    make_product(&mut store, "Chair", None);
    match delete_product(&mut store, 99) {
        Err(NotFoundErrorModel::NotFoundError(m)) => assert_eq!(m, "Product not found"),
        Err(NotFoundErrorModel::DatabaseError(_)) => {
            panic!("a missing id must not look like a store failure")
        }
        _ => panic!("expected not found"),
    }
}

#[test]
fn delete_product_returns_true_and_removes_it() {
    let mut store = Store::new();
    let id = make_product(&mut store, "Chair", None);
    match delete_product(&mut store, id) {
        Ok(removed) => assert!(removed),
        Err(_) => panic!("expected success"),
    }
    let listing = match get_all_products(&store) {
        Ok(v) => v,
        Err(_) => panic!("listing failed"),
    };
    assert_eq!(listing.len(), 0);
    match delete_product(&mut store, id) {
        Err(NotFoundErrorModel::NotFoundError(_)) => {}
        _ => panic!("a deleted product must be gone"),
    }
}
