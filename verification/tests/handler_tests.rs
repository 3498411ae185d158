use product_item_service::item_handler;
use product_item_service::models::{
    error_response, lookup_error_response, CreateProductModal, ErrorModel, GetItemModel,
    NotFoundErrorModel, UpdateProductModal,
};
use product_item_service::product_handler;
use product_item_service::store::Store;

#[test]
fn error_responses_carry_the_documented_status_codes() {
    let (status, body) = error_response(ErrorModel::ValidationError("bad input".to_owned()));
    assert_eq!(status, 400);
    assert_eq!(body, "bad input");
    let (status, _) = error_response(ErrorModel::DatabaseError("down".to_owned()));
    assert_eq!(status, 500);
    let (status, _) =
        lookup_error_response(NotFoundErrorModel::ValidationError("bad".to_owned()));
    assert_eq!(status, 400);
    let (status, _) = lookup_error_response(NotFoundErrorModel::DatabaseError("down".to_owned()));
    assert_eq!(status, 500);
    let (status, body) =
        lookup_error_response(NotFoundErrorModel::NotFoundError("gone".to_owned()));
    assert_eq!(status, 404);
    assert_eq!(body, "gone");
}

#[test]
fn product_handlers_map_outcomes_to_statuses() {
    let mut store = Store::new();
    let r = product_handler::create_product(
        &mut store,
        CreateProductModal { name: "Chair".to_owned(), description: None },
    );
    match r {
        Ok((status, p)) => {
            assert_eq!(status, 201);
            assert_eq!(p.id, 1);
        }
        Err(_) => panic!("expected success"),
    }

    let r = product_handler::create_product(
        &mut store,
        CreateProductModal { name: String::new(), description: None },
    );
    match r {
        Err((status, body)) => {
            assert_eq!(status, 400);
            assert_eq!(body, "Name is required");
        }
        Ok(_) => panic!("expected a rejection"),
    }

    match product_handler::get_all_products(&store) {
        Ok((status, listing)) => {
            assert_eq!(status, 200);
            assert_eq!(listing.len(), 1);
        }
        Err(_) => panic!("expected success"),
    }

    let r = product_handler::update_product(
        &mut store,
        1,
        UpdateProductModal { name: Some("Stool".to_owned()), description: None },
    );
    match r {
        Ok((status, p)) => {
            assert_eq!(status, 202);
            assert_eq!(p.name, "Stool");
        }
        Err(_) => panic!("expected success"),
    }

    match product_handler::delete_product(&mut store, 9) {
        Err((status, body)) => {
            assert_eq!(status, 404);
            assert_eq!(body, "Product not found");
        }
        Ok(_) => panic!("expected a rejection"),
    }

    match product_handler::delete_product(&mut store, 1) {
        Ok((status, body)) => {
            assert_eq!(status, 200);
            assert_eq!(body, "Product deleted");
        }
        Err(_) => panic!("expected success"),
    }
}

#[test]
fn item_handlers_map_outcomes_to_statuses() {
    let mut store = Store::new();
    let r = product_handler::create_product(
        &mut store,
        CreateProductModal { name: "Chair".to_owned(), description: None },
    );
    assert!(matches!(r, Ok(_)));

    let r = item_handler::create_item(
        &mut store,
        GetItemModel {
            product_id: 1,
            color: "red".to_owned(),
            size: "M".to_owned(),
            stock: 5,
        },
    );
    match r {
        Ok((status, item)) => {
            assert_eq!(status, 201);
            assert_eq!(item.id, Some(1));
        }
        Err(_) => panic!("expected success"),
    }

    let r = item_handler::create_item(
        &mut store,
        GetItemModel {
            product_id: 0,
            color: "red".to_owned(),
            size: "M".to_owned(),
            stock: 5,
        },
    );
    match r {
        Err((status, body)) => {
            assert_eq!(status, 400);
            assert_eq!(body, "Product ID is required");
        }
        Ok(_) => panic!("expected a rejection"),
    }

    let r = item_handler::create_item(
        &mut store,
        GetItemModel {
            product_id: 6,
            color: "red".to_owned(),
            size: "M".to_owned(),
            stock: 5,
        },
    );
    match r {
        Err((status, body)) => {
            assert_eq!(status, 500);
            assert_eq!(body, "Failed to create item");
        }
        Ok(_) => panic!("expected a rejection"),
    }

    match item_handler::get_item_by_id(&store, 1) {
        Ok((status, item)) => {
            assert_eq!(status, 200);
            assert_eq!(item.color, "red");
        }
        Err(_) => panic!("expected success"),
    }

    let r = item_handler::update_item(
        &mut store,
        1,
        product_item_service::models::UpdateItemModel {
            size: Some("L".to_owned()),
            color: None,
            stock: None,
        },
    );
    match r {
        Ok((status, item)) => {
            assert_eq!(status, 202);
            assert_eq!(item.size, "L");
        }
        Err(_) => panic!("expected success"),
    }

    match item_handler::delete_item(&mut store, 2) {
        Err((status, body)) => {
            assert_eq!(status, 404);
            assert_eq!(body, "Item not found");
        }
        Ok(_) => panic!("expected a rejection"),
    }

    match item_handler::delete_item(&mut store, 1) {
        Ok((status, body)) => {
            assert_eq!(status, 200);
            assert_eq!(body, "Item deleted");
        }
        Err(_) => panic!("expected success"),
    }
}
