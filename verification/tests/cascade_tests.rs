use product_item_service::item_service::{create_item, get_item_by_id};
use product_item_service::models::{CreateProductModal, GetItemModel, NotFoundErrorModel};
use product_item_service::product_service::{create_product, delete_product, get_all_products};
use product_item_service::store::Store;

fn two_products_with_items() -> Store {
    let mut store = Store::new();
    for name in ["Chair", "Table"] {
        let r = create_product(
            &mut store,
            CreateProductModal { name: name.to_owned(), description: None },
        );
        assert!(matches!(r, Ok(_)));
    }
    // Items 1 and 2 belong to product 1, item 3 to product 2.
    for (product_id, color) in [(1, "red"), (1, "blue"), (2, "green")] {
        let r = create_item(
            &mut store,
            GetItemModel {
                product_id,
                color: color.to_owned(),
                size: "M".to_owned(),
                stock: 5,
            },
        );
        assert!(matches!(r, Ok(_)));
    }
    store
}

#[test]
fn listing_nests_each_item_under_its_product() {
    let store = two_products_with_items();
    let listing = match get_all_products(&store) {
        Ok(v) => v,
        Err(_) => panic!("listing failed"),
    };
    assert_eq!(listing.len(), 2);
    assert_eq!(listing[0].id, 1);
    assert_eq!(listing[0].name, "Chair");
    assert_eq!(listing[0].items.len(), 2);
    assert_eq!(listing[0].items[0].id, Some(1));
    assert_eq!(listing[0].items[0].color, "red");
    assert_eq!(listing[0].items[1].id, Some(2));
    assert_eq!(listing[0].items[1].color, "blue");
    assert_eq!(listing[1].id, 2);
    assert_eq!(listing[1].items.len(), 1);
    assert_eq!(listing[1].items[0].id, Some(3));
    assert_eq!(listing[1].items[0].color, "green");
}

#[test]
fn deleting_a_product_removes_exactly_its_items() {
    let mut store = two_products_with_items();
    match delete_product(&mut store, 1) {
        Ok(removed) => assert!(removed),
        Err(_) => panic!("expected success"),
    }
    // Every item of product 1 is gone...
    for id in [1, 2] {
        assert!(matches!(
            get_item_by_id(&store, id),
            Err(NotFoundErrorModel::NotFoundError(_))
        ));
    }
    // ...and the item of the other product survives.
    match get_item_by_id(&store, 3) {
        Ok(item) => assert_eq!(item.product_id, 2),
        Err(_) => panic!("the other product's item must survive"),
    }
    let listing = match get_all_products(&store) {
        Ok(v) => v,
        Err(_) => panic!("listing failed"),
    };
    assert_eq!(listing.len(), 1);
    assert_eq!(listing[0].id, 2);
}

#[test]
fn failed_transaction_leaves_product_and_items_untouched() {
    // A failure of either delete statement rolls the transaction back.
    let mut store = two_products_with_items();
    for (items_ok, product_ok) in [(false, true), (true, false), (false, false)] {
        let r = store.delete_product_transaction(1, items_ok, product_ok);
        match r {
            Err(NotFoundErrorModel::DatabaseError(m)) => {
                assert_eq!(m, "Failed to delete product")
            }
            _ => panic!("a failed statement must surface a store failure"),
        }
        // The product and both its items are still there.
        let listing = match get_all_products(&store) {
            Ok(v) => v,
            Err(_) => panic!("listing failed"),
        };
        assert_eq!(listing.len(), 2);
        assert_eq!(listing[0].items.len(), 2);
        assert!(matches!(get_item_by_id(&store, 1), Ok(_)));
        assert!(matches!(get_item_by_id(&store, 2), Ok(_)));
    }
    // With both statements succeeding the same transaction commits.
    match store.delete_product_transaction(1, true, true) {
        Ok(removed) => assert!(removed),
        Err(_) => panic!("expected success"),
    }
    assert!(matches!(
        get_item_by_id(&store, 1),
        Err(NotFoundErrorModel::NotFoundError(_))
    ));
}

#[test]
fn transaction_on_missing_product_is_not_found() {
    let mut store = Store::new();
    match store.delete_product_transaction(4, true, true) {
        Err(NotFoundErrorModel::NotFoundError(m)) => assert_eq!(m, "Product not found"),
        _ => panic!("expected not found"),
    }
}
