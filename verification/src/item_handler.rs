//! The transport face of the item operations: each handler runs the
//! service call and fixes the HTTP status of every outcome. Success
//! statuses are 201 for create, 200 for fetch and delete, 202 for
//! update; errors map through `lookup_error_status` / `error_status`.

use vstd::prelude::*;

use crate::item_service;
use crate::models::{
    error_response, lookup_error_response, GetItemModel, ItemModel, UpdateItemModel,
    STATUS_ACCEPTED, STATUS_CREATED, STATUS_OK,
};
use crate::store::{
    has_item_id, has_product_id, item_as_model, item_index, item_record_of_request,
    updated_item_record, Store,
};

verus! {

/// Creates an item: 201 with the stored item, 400 naming the first
/// missing field, or 500 when the store refuses the insert.
pub fn create_item(store: &mut Store, item_data: GetItemModel) -> (r: Result<
    (u16, ItemModel),
    (u16, String),
>)
    requires
        old(store)@.wf(),
    ensures
        final(store)@.wf(),
        item_data.product_id == 0 ==> {
            &&& r matches Err(e) && e.0 == 400 && e.1@ == "Product ID is required"@
            &&& final(store)@ == old(store)@
        },
        item_data.product_id != 0 && item_data.color@.len() == 0 ==> {
            &&& r matches Err(e) && e.0 == 400 && e.1@ == "Color is required"@
            &&& final(store)@ == old(store)@
        },
        item_data.product_id != 0 && item_data.color@.len() > 0 && item_data.size@.len() == 0
            ==> {
            &&& r matches Err(e) && e.0 == 400 && e.1@ == "Size is required"@
            &&& final(store)@ == old(store)@
        },
        item_data.product_id != 0 && item_data.color@.len() > 0 && item_data.size@.len() > 0
            && item_data.stock == 0 ==> {
            &&& r matches Err(e) && e.0 == 400 && e.1@ == "Stock is required"@
            &&& final(store)@ == old(store)@
        },
        item_service::item_request_valid(item_data@) && !has_product_id(
            old(store)@.products,
            item_data.product_id as int,
        ) ==> {
            &&& r matches Err(e) && e.0 == 500 && e.1@ == "Failed to create item"@
            &&& final(store)@ == old(store)@
        },
        item_service::item_request_valid(item_data@) && has_product_id(
            old(store)@.products,
            item_data.product_id as int,
        ) && old(store)@.next_item_id == i32::MAX ==> {
            &&& r matches Err(e) && e.0 == 500 && e.1@ == "Failed to create item"@
            &&& final(store)@ == old(store)@
        },
        item_service::item_request_valid(item_data@) && has_product_id(
            old(store)@.products,
            item_data.product_id as int,
        ) && old(store)@.next_item_id < i32::MAX ==> {
            &&& r matches Ok(p) && p.0 == STATUS_CREATED && p.1@ == item_as_model(
                item_record_of_request(item_data@, old(store)@.next_item_id),
            )
            &&& final(store)@.items == old(store)@.items.push(
                item_record_of_request(item_data@, old(store)@.next_item_id),
            )
            &&& final(store)@.products == old(store)@.products
            &&& final(store)@.next_product_id == old(store)@.next_product_id
            &&& final(store)@.next_item_id == old(store)@.next_item_id + 1
        },
{
    match item_service::create_item(store, item_data) {
        Ok(item) => Ok((STATUS_CREATED, item)),
        Err(e) => Err(error_response(e)),
    }
}

/// Deletes an item: 200 on removal, 404 when the id names no item.
pub fn delete_item(store: &mut Store, item_id: i32) -> (r: Result<(u16, String), (u16, String)>)
    requires
        old(store)@.wf(),
    ensures
        final(store)@.wf(),
        !has_item_id(old(store)@.items, item_id as int) ==> {
            &&& r matches Err(e) && e.0 == 404 && e.1@ == "Item not found"@
            &&& final(store)@ == old(store)@
        },
        has_item_id(old(store)@.items, item_id as int) ==> {
            &&& r matches Ok(p) && p.0 == STATUS_OK && p.1@ == "Item deleted"@
            &&& final(store)@.items == old(store)@.items.remove(
                item_index(old(store)@.items, item_id as int),
            )
            &&& final(store)@.products == old(store)@.products
            &&& final(store)@.next_product_id == old(store)@.next_product_id
            &&& final(store)@.next_item_id == old(store)@.next_item_id
        },
{
    match item_service::delete_item(store, item_id) {
        Ok(_) => Ok((STATUS_OK, "Item deleted".to_owned())),
        Err(e) => Err(lookup_error_response(e)),
    }
}

/// Updates an item: 202 with the updated item, 404 when the id names no
/// item.
pub fn update_item(store: &mut Store, item_id: i32, item_data: UpdateItemModel) -> (r: Result<
    (u16, ItemModel),
    (u16, String),
>)
    requires
        old(store)@.wf(),
    ensures
        final(store)@.wf(),
        !has_item_id(old(store)@.items, item_id as int) ==> {
            &&& r matches Err(e) && e.0 == 404 && e.1@ == "Item not found"@
            &&& final(store)@ == old(store)@
        },
        has_item_id(old(store)@.items, item_id as int) ==> {
            let ix = item_index(old(store)@.items, item_id as int);
            let updated = updated_item_record(old(store)@.items[ix], item_data@);
            &&& r matches Ok(p) && p.0 == STATUS_ACCEPTED && p.1@ == item_as_model(updated)
            &&& final(store)@.items == old(store)@.items.update(ix, updated)
            &&& final(store)@.products == old(store)@.products
            &&& final(store)@.next_product_id == old(store)@.next_product_id
            &&& final(store)@.next_item_id == old(store)@.next_item_id
        },
{
    match item_service::update_item(store, item_id, item_data) {
        Ok(item) => Ok((STATUS_ACCEPTED, item)),
        Err(e) => Err(lookup_error_response(e)),
    }
}

/// Fetches an item: 200 with the item, 404 when the id names no item.
pub fn get_item_by_id(store: &Store, item_id: i32) -> (r: Result<(u16, ItemModel), (u16, String)>)
    requires
        store@.wf(),
    ensures
        has_item_id(store@.items, item_id as int) ==> {
            &&& r matches Ok(p) && p.0 == STATUS_OK && p.1@ == item_as_model(
                store@.items[item_index(store@.items, item_id as int)],
            )
        },
        !has_item_id(store@.items, item_id as int) ==> {
            &&& r matches Err(e) && e.0 == 404 && e.1@ == "Item not found"@
        },
{
    match item_service::get_item_by_id(store, item_id) {
        Ok(item) => Ok((STATUS_OK, item)),
        Err(e) => Err(lookup_error_response(e)),
    }
}

} // verus!
