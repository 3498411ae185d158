//! The transport face of the product operations: each handler runs the
//! service call and fixes the HTTP status of every outcome. Success
//! statuses are 201 for create, 200 for listing and delete, 202 for
//! update; errors map through `lookup_error_status` / `error_status`.

use vstd::prelude::*;

use crate::models::{
    error_response, lookup_error_response, CreateProductModal, ProductItemModel,
    UpdateProductModal, WholeProductModel, STATUS_ACCEPTED, STATUS_CREATED, STATUS_OK,
};
use crate::product_service;
use crate::store::{
    has_product_id, product_as_model, product_index, product_listing, product_record_of_request,
    updated_product_record, without_product_items, Store,
};

verus! {

/// Creates a product: 201 with the stored product, 400 when the name is
/// missing, or 500 when the store refuses the insert.
pub fn create_product(store: &mut Store, product_data: CreateProductModal) -> (r: Result<
    (u16, WholeProductModel),
    (u16, String),
>)
    requires
        old(store)@.wf(),
    ensures
        final(store)@.wf(),
        product_data.name@.len() == 0 ==> {
            &&& r matches Err(e) && e.0 == 400 && e.1@ == "Name is required"@
            &&& final(store)@ == old(store)@
        },
        product_data.name@.len() > 0 && old(store)@.next_product_id == i32::MAX ==> {
            &&& r matches Err(e) && e.0 == 500 && e.1@ == "Failed to create product"@
            &&& final(store)@ == old(store)@
        },
        product_data.name@.len() > 0 && old(store)@.next_product_id < i32::MAX ==> {
            &&& r matches Ok(p) && p.0 == STATUS_CREATED && {
                &&& 0 <= p.1@.created_at
                &&& p.1@ == product_as_model(
                    product_record_of_request(
                        product_data@,
                        old(store)@.next_product_id,
                        p.1@.created_at,
                    ),
                )
                &&& final(store)@.products == old(store)@.products.push(
                    product_record_of_request(
                        product_data@,
                        old(store)@.next_product_id,
                        p.1@.created_at,
                    ),
                )
            }
            &&& final(store)@.items == old(store)@.items
            &&& final(store)@.next_product_id == old(store)@.next_product_id + 1
            &&& final(store)@.next_item_id == old(store)@.next_item_id
        },
{
    match product_service::create_product(store, product_data) {
        Ok(product) => Ok((STATUS_CREATED, product)),
        Err(e) => Err(error_response(e)),
    }
}

/// Lists every product with its items: 200 with the listing, which is
/// empty for an empty store.
pub fn get_all_products(store: &Store) -> (r: Result<
    (u16, Vec<ProductItemModel>),
    (u16, String),
>)
    requires
        store@.wf(),
    ensures
        r matches Ok(p) && p.0 == STATUS_OK && p.1@.map_values(|q: ProductItemModel| q@)
            == product_listing(store@),
{
    match product_service::get_all_products(store) {
        Ok(products) => Ok((STATUS_OK, products)),
        Err(e) => Err(error_response(e)),
    }
}

/// Updates a product: 202 with the updated product, 404 when the id
/// names no product.
pub fn update_product(store: &mut Store, product_id: i32, product_data: UpdateProductModal) -> (r:
    Result<(u16, WholeProductModel), (u16, String)>)
    requires
        old(store)@.wf(),
    ensures
        final(store)@.wf(),
        !has_product_id(old(store)@.products, product_id as int) ==> {
            &&& r matches Err(e) && e.0 == 404 && e.1@ == "Product not found"@
            &&& final(store)@ == old(store)@
        },
        has_product_id(old(store)@.products, product_id as int) ==> {
            let ix = product_index(old(store)@.products, product_id as int);
            &&& r matches Ok(p) && p.0 == STATUS_ACCEPTED && {
                &&& 0 <= p.1@.updated_at
                &&& p.1@ == product_as_model(
                    updated_product_record(
                        old(store)@.products[ix],
                        product_data@,
                        p.1@.updated_at,
                    ),
                )
                &&& final(store)@.products == old(store)@.products.update(
                    ix,
                    updated_product_record(
                        old(store)@.products[ix],
                        product_data@,
                        p.1@.updated_at,
                    ),
                )
            }
            &&& final(store)@.items == old(store)@.items
            &&& final(store)@.next_product_id == old(store)@.next_product_id
            &&& final(store)@.next_item_id == old(store)@.next_item_id
        },
{
    match product_service::update_product(store, product_id, product_data) {
        Ok(product) => Ok((STATUS_ACCEPTED, product)),
        Err(e) => Err(lookup_error_response(e)),
    }
}

/// Deletes a product and its items: 200 on removal, 404 when the id
/// names no product.
pub fn delete_product(store: &mut Store, product_id: i32) -> (r: Result<
    (u16, String),
    (u16, String),
>)
    requires
        old(store)@.wf(),
    ensures
        final(store)@.wf(),
        !has_product_id(old(store)@.products, product_id as int) ==> {
            &&& r matches Err(e) && e.0 == 404 && e.1@ == "Product not found"@
            &&& final(store)@ == old(store)@
        },
        has_product_id(old(store)@.products, product_id as int) ==> {
            &&& r matches Ok(p) && p.0 == STATUS_OK && p.1@ == "Product deleted"@
            &&& final(store)@.products == old(store)@.products.remove(
                product_index(old(store)@.products, product_id as int),
            )
            &&& final(store)@.items == without_product_items(old(store)@.items, product_id as int)
            &&& final(store)@.next_product_id == old(store)@.next_product_id
            &&& final(store)@.next_item_id == old(store)@.next_item_id
        },
{
    match product_service::delete_product(store, product_id) {
        Ok(_) => Ok((STATUS_OK, "Product deleted".to_owned())),
        Err(e) => Err(lookup_error_response(e)),
    }
}

} // verus!
