//! Item business rules: input validation in a fixed order, above the
//! repository.

use vstd::prelude::*;

use crate::models::{ErrorModel, GetItemModel, ItemModel, NotFoundErrorModel, UpdateItemModel};
use crate::store::{
    has_item_id, has_product_id, item_as_model, item_index, item_record_of_request,
    updated_item_record, Store,
};

verus! {

/// A create-item request passes validation: a product id, a colour, a
/// size and a stock count are all supplied (non-zero, non-empty).
pub open spec fn item_request_valid(req: crate::models::GetItemModelV) -> bool {
    &&& req.product_id != 0
    &&& req.color.len() > 0
    &&& req.size.len() > 0
    &&& req.stock != 0
}

/// Validates a create-item request — product id, colour, size, stock,
/// checked in that order, each missing field named in the error — and
/// inserts the item. A request that fails validation never reaches the
/// store.
pub fn create_item(store: &mut Store, request: GetItemModel) -> (r: Result<ItemModel, ErrorModel>)
    requires
        old(store)@.wf(),
    ensures
        final(store)@.wf(),
        request.product_id == 0 ==> {
            &&& r matches Err(ErrorModel::ValidationError(m)) && m@ == "Product ID is required"@
            &&& final(store)@ == old(store)@
        },
        request.product_id != 0 && request.color@.len() == 0 ==> {
            &&& r matches Err(ErrorModel::ValidationError(m)) && m@ == "Color is required"@
            &&& final(store)@ == old(store)@
        },
        request.product_id != 0 && request.color@.len() > 0 && request.size@.len() == 0 ==> {
            &&& r matches Err(ErrorModel::ValidationError(m)) && m@ == "Size is required"@
            &&& final(store)@ == old(store)@
        },
        request.product_id != 0 && request.color@.len() > 0 && request.size@.len() > 0
            && request.stock == 0 ==> {
            &&& r matches Err(ErrorModel::ValidationError(m)) && m@ == "Stock is required"@
            &&& final(store)@ == old(store)@
        },
        item_request_valid(request@) && !has_product_id(
            old(store)@.products,
            request.product_id as int,
        ) ==> {
            &&& r matches Err(ErrorModel::DatabaseError(m)) && m@ == "Failed to create item"@
            &&& final(store)@ == old(store)@
        },
        item_request_valid(request@) && has_product_id(
            old(store)@.products,
            request.product_id as int,
        ) && old(store)@.next_item_id == i32::MAX ==> {
            &&& r matches Err(ErrorModel::DatabaseError(m)) && m@ == "Failed to create item"@
            &&& final(store)@ == old(store)@
        },
        item_request_valid(request@) && has_product_id(
            old(store)@.products,
            request.product_id as int,
        ) && old(store)@.next_item_id < i32::MAX ==> {
            &&& r matches Ok(item) && item@ == item_as_model(
                item_record_of_request(request@, old(store)@.next_item_id),
            )
            &&& final(store)@.items == old(store)@.items.push(
                item_record_of_request(request@, old(store)@.next_item_id),
            )
            &&& final(store)@.products == old(store)@.products
            &&& final(store)@.next_product_id == old(store)@.next_product_id
            &&& final(store)@.next_item_id == old(store)@.next_item_id + 1
        },
{
    if request.product_id == 0 {
        return Err(ErrorModel::ValidationError("Product ID is required".to_owned()));
    }
    if request.color.as_str().is_empty() {
        return Err(ErrorModel::ValidationError("Color is required".to_owned()));
    }
    if request.size.as_str().is_empty() {
        return Err(ErrorModel::ValidationError("Size is required".to_owned()));
    }
    if request.stock == 0 {
        return Err(ErrorModel::ValidationError("Stock is required".to_owned()));
    }
    store.create_item_in_db(request)
}

/// Removes an item by id.
pub fn delete_item(store: &mut Store, item_id: i32) -> (r: Result<bool, NotFoundErrorModel>)
    requires
        old(store)@.wf(),
    ensures
        final(store)@.wf(),
        !has_item_id(old(store)@.items, item_id as int) ==> {
            &&& r matches Err(NotFoundErrorModel::NotFoundError(m)) && m@ == "Item not found"@
            &&& final(store)@ == old(store)@
        },
        has_item_id(old(store)@.items, item_id as int) ==> {
            &&& r == Ok::<bool, NotFoundErrorModel>(true)
            &&& final(store)@.items == old(store)@.items.remove(
                item_index(old(store)@.items, item_id as int),
            )
            &&& final(store)@.products == old(store)@.products
            &&& final(store)@.next_product_id == old(store)@.next_product_id
            &&& final(store)@.next_item_id == old(store)@.next_item_id
        },
{
    store.delete_item_in_db(item_id)
}

/// Applies a partial update to an item by id.
pub fn update_item(store: &mut Store, item_id: i32, request: UpdateItemModel) -> (r: Result<
    ItemModel,
    NotFoundErrorModel,
>)
    requires
        old(store)@.wf(),
    ensures
        final(store)@.wf(),
        !has_item_id(old(store)@.items, item_id as int) ==> {
            &&& r matches Err(NotFoundErrorModel::NotFoundError(m)) && m@ == "Item not found"@
            &&& final(store)@ == old(store)@
        },
        has_item_id(old(store)@.items, item_id as int) ==> {
            let ix = item_index(old(store)@.items, item_id as int);
            let updated = updated_item_record(old(store)@.items[ix], request@);
            &&& r matches Ok(item) && item@ == item_as_model(updated)
            &&& final(store)@.items == old(store)@.items.update(ix, updated)
            &&& final(store)@.products == old(store)@.products
            &&& final(store)@.next_product_id == old(store)@.next_product_id
            &&& final(store)@.next_item_id == old(store)@.next_item_id
        },
{
    store.update_item_in_db(item_id, request)
}

/// Fetches an item by id.
pub fn get_item_by_id(store: &Store, item_id: i32) -> (r: Result<ItemModel, NotFoundErrorModel>)
    requires
        store@.wf(),
    ensures
        has_item_id(store@.items, item_id as int) ==> {
            &&& r matches Ok(item) && item@ == item_as_model(
                store@.items[item_index(store@.items, item_id as int)],
            )
        },
        !has_item_id(store@.items, item_id as int) ==> {
            &&& r matches Err(NotFoundErrorModel::NotFoundError(m)) && m@ == "Item not found"@
        },
{
    store.get_item_by_id_from_db(item_id)
}

} // verus!
