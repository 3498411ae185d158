//! Product business rules: input validation above the repository, and
//! timestamping of creations and updates from the wall clock.

use vstd::prelude::*;

use crate::clock::current_timestamp;
use crate::models::{
    CreateProductModal, ErrorModel, NotFoundErrorModel, ProductItemModel, UpdateProductModal,
    WholeProductModel,
};
use crate::store::{
    has_product_id, product_as_model, product_index, product_listing, product_record_of_request,
    updated_product_record, without_product_items, Store,
};

verus! {

/// Validates a create-product request — the name must be non-empty —
/// and inserts the product with both timestamps taken from the wall
/// clock. A request that fails validation never reaches the store.
pub fn create_product(store: &mut Store, request: CreateProductModal) -> (r: Result<
    WholeProductModel,
    ErrorModel,
>)
    requires
        old(store)@.wf(),
    ensures
        final(store)@.wf(),
        request.name@.len() == 0 ==> {
            &&& r matches Err(ErrorModel::ValidationError(m)) && m@ == "Name is required"@
            &&& final(store)@ == old(store)@
        },
        request.name@.len() > 0 && old(store)@.next_product_id == i32::MAX ==> {
            &&& r matches Err(ErrorModel::DatabaseError(m)) && m@ == "Failed to create product"@
            &&& final(store)@ == old(store)@
        },
        request.name@.len() > 0 && old(store)@.next_product_id < i32::MAX ==> {
            &&& r matches Ok(p) && {
                &&& 0 <= p@.created_at
                &&& p@ == product_as_model(
                    product_record_of_request(
                        request@,
                        old(store)@.next_product_id,
                        p@.created_at,
                    ),
                )
                &&& final(store)@.products == old(store)@.products.push(
                    product_record_of_request(
                        request@,
                        old(store)@.next_product_id,
                        p@.created_at,
                    ),
                )
            }
            &&& final(store)@.items == old(store)@.items
            &&& final(store)@.next_product_id == old(store)@.next_product_id + 1
            &&& final(store)@.next_item_id == old(store)@.next_item_id
        },
{
    if request.name.as_str().is_empty() {
        return Err(ErrorModel::ValidationError("Name is required".to_owned()));
    }
    let now = current_timestamp();
    store.create_product_in_db(request, now)
}

/// Lists every product with its items.
pub fn get_all_products(store: &Store) -> (r: Result<Vec<ProductItemModel>, ErrorModel>)
    requires
        store@.wf(),
    ensures
        r matches Ok(v) && v@.map_values(|p: ProductItemModel| p@) == product_listing(store@),
{
    store.get_all_products_from_db()
}

/// Applies a partial update to a product by id, timestamping it from
/// the wall clock.
pub fn update_product(store: &mut Store, product_id: i32, request: UpdateProductModal) -> (r:
    Result<WholeProductModel, NotFoundErrorModel>)
    requires
        old(store)@.wf(),
    ensures
        final(store)@.wf(),
        !has_product_id(old(store)@.products, product_id as int) ==> {
            &&& r matches Err(NotFoundErrorModel::NotFoundError(m)) && m@ == "Product not found"@
            &&& final(store)@ == old(store)@
        },
        has_product_id(old(store)@.products, product_id as int) ==> {
            let ix = product_index(old(store)@.products, product_id as int);
            &&& r matches Ok(p) && {
                &&& 0 <= p@.updated_at
                &&& p@ == product_as_model(
                    updated_product_record(old(store)@.products[ix], request@, p@.updated_at),
                )
                &&& final(store)@.products == old(store)@.products.update(
                    ix,
                    updated_product_record(old(store)@.products[ix], request@, p@.updated_at),
                )
            }
            &&& final(store)@.items == old(store)@.items
            &&& final(store)@.next_product_id == old(store)@.next_product_id
            &&& final(store)@.next_item_id == old(store)@.next_item_id
        },
{
    let now = current_timestamp();
    store.update_product_in_db(product_id, request, now)
}

/// Deletes a product together with every item referencing it.
pub fn delete_product(store: &mut Store, product_id: i32) -> (r: Result<bool, NotFoundErrorModel>)
    requires
        old(store)@.wf(),
    ensures
        final(store)@.wf(),
        !has_product_id(old(store)@.products, product_id as int) ==> {
            &&& r matches Err(NotFoundErrorModel::NotFoundError(m)) && m@ == "Product not found"@
            &&& final(store)@ == old(store)@
        },
        has_product_id(old(store)@.products, product_id as int) ==> {
            &&& r == Ok::<bool, NotFoundErrorModel>(true)
            &&& final(store)@.products == old(store)@.products.remove(
                product_index(old(store)@.products, product_id as int),
            )
            &&& final(store)@.items == without_product_items(old(store)@.items, product_id as int)
            &&& final(store)@.next_product_id == old(store)@.next_product_id
            &&& final(store)@.next_item_id == old(store)@.next_item_id
        },
{
    store.delete_product_in_db(product_id)
}

} // verus!
