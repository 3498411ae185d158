//! Item table operations: insert, fetch, partial update, delete.

use vstd::prelude::*;

use crate::models::{ErrorModel, GetItemModel, ItemModel, NotFoundErrorModel, UpdateItemModel};
use crate::store::{
    has_item_id, has_product_id, item_as_model, item_index, item_record_of_request,
    lemma_item_index_is, opt_string_or_empty, updated_item_record, ItemRecord, Store,
};

verus! {

impl Store {
    /// Inserts an item row under a fresh id. The store refuses the insert
    /// when the foreign key does not name a live product, or when the
    /// auto-increment counter is exhausted.
    pub fn create_item_in_db(&mut self, request: GetItemModel) -> (r: Result<ItemModel, ErrorModel>)
        requires
            old(self)@.wf(),
        ensures
            final(self)@.wf(),
            !has_product_id(old(self)@.products, request.product_id as int) ==> {
                &&& r matches Err(ErrorModel::DatabaseError(m)) && m@ == "Failed to create item"@
                &&& final(self)@ == old(self)@
            },
            has_product_id(old(self)@.products, request.product_id as int) && old(
                self,
            )@.next_item_id == i32::MAX ==> {
                &&& r matches Err(ErrorModel::DatabaseError(m)) && m@ == "Failed to create item"@
                &&& final(self)@ == old(self)@
            },
            has_product_id(old(self)@.products, request.product_id as int) && old(
                self,
            )@.next_item_id < i32::MAX ==> {
                &&& r matches Ok(item) && item@ == item_as_model(
                    item_record_of_request(request@, old(self)@.next_item_id),
                )
                &&& final(self)@.items == old(self)@.items.push(
                    item_record_of_request(request@, old(self)@.next_item_id),
                )
                &&& final(self)@.products == old(self)@.products
                &&& final(self)@.next_product_id == old(self)@.next_product_id
                &&& final(self)@.next_item_id == old(self)@.next_item_id + 1
            },
    {
        match self.product_pos(request.product_id) {
            None => Err(ErrorModel::DatabaseError("Failed to create item".to_owned())),
            Some(_) => {
                if self.next_item_id == i32::MAX {
                    return Err(ErrorModel::DatabaseError("Failed to create item".to_owned()));
                }
                let id = self.next_item_id;
                self.next_item_id = self.next_item_id + 1;
                let record = ItemRecord {
                    id,
                    product_id: request.product_id,
                    size: Some(request.size.clone()),
                    color: Some(request.color.clone()),
                    stock: request.stock,
                };
                self.items.push(record);
                proof {
                    assert(self@.items =~= old(self)@.items.push(
                        item_record_of_request(request@, old(self)@.next_item_id),
                    ));
                    assert(self@.products =~= old(self)@.products);
                }
                Ok(
                    ItemModel {
                        id: Some(id),
                        product_id: request.product_id,
                        color: request.color,
                        stock: request.stock,
                        size: request.size,
                    },
                )
            },
        }
    }

    /// Fetches the item row with the given id as a client model, or
    /// `None` when no row carries it.
    pub fn find_item(&self, item_id: i32) -> (r: Option<ItemModel>)
        requires
            self@.wf(),
        ensures
            has_item_id(self@.items, item_id as int) ==> {
                &&& r matches Some(item) && item@ == item_as_model(
                    self@.items[item_index(self@.items, item_id as int)],
                )
            },
            !has_item_id(self@.items, item_id as int) ==> r is None,
    {
        match self.item_pos(item_id) {
            None => None,
            Some(ix) => {
                proof {
                    lemma_item_index_is(self@.items, ix as int, item_id as int);
                }
                Some(self.items[ix].as_model())
            },
        }
    }

    /// Fetches the item row with the given id as a client model; absent
    /// optional columns come back as empty strings.
    pub fn get_item_by_id_from_db(&self, item_id: i32) -> (r: Result<ItemModel, NotFoundErrorModel>)
        requires
            self@.wf(),
        ensures
            has_item_id(self@.items, item_id as int) ==> {
                &&& r matches Ok(item) && item@ == item_as_model(
                    self@.items[item_index(self@.items, item_id as int)],
                )
            },
            !has_item_id(self@.items, item_id as int) ==> {
                &&& r matches Err(NotFoundErrorModel::NotFoundError(m)) && m@ == "Item not found"@
            },
    {
        match self.item_pos(item_id) {
            None => Err(NotFoundErrorModel::NotFoundError("Item not found".to_owned())),
            Some(ix) => {
                proof {
                    lemma_item_index_is(self@.items, ix as int, item_id as int);
                }
                let rec = &self.items[ix];
                Ok(
                    ItemModel {
                        id: Some(rec.id),
                        product_id: rec.product_id,
                        color: opt_string_or_empty(&rec.color),
                        stock: rec.stock,
                        size: opt_string_or_empty(&rec.size),
                    },
                )
            },
        }
    }

    /// Overwrites the fields of an item row that the partial update
    /// supplies; absent fields keep their stored value.
    pub fn update_item_in_db(&mut self, item_id: i32, item_data: UpdateItemModel) -> (r: Result<
        ItemModel,
        NotFoundErrorModel,
    >)
        requires
            old(self)@.wf(),
        ensures
            final(self)@.wf(),
            !has_item_id(old(self)@.items, item_id as int) ==> {
                &&& r matches Err(NotFoundErrorModel::NotFoundError(m)) && m@ == "Item not found"@
                &&& final(self)@ == old(self)@
            },
            has_item_id(old(self)@.items, item_id as int) ==> {
                let ix = item_index(old(self)@.items, item_id as int);
                let updated = updated_item_record(old(self)@.items[ix], item_data@);
                &&& r matches Ok(item) && item@ == item_as_model(updated)
                &&& final(self)@.items == old(self)@.items.update(ix, updated)
                &&& final(self)@.products == old(self)@.products
                &&& final(self)@.next_product_id == old(self)@.next_product_id
                &&& final(self)@.next_item_id == old(self)@.next_item_id
            },
    {
        match self.item_pos(item_id) {
            None => Err(NotFoundErrorModel::NotFoundError("Item not found".to_owned())),
            Some(ix) => {
                proof {
                    lemma_item_index_is(old(self)@.items, ix as int, item_id as int);
                }
                let UpdateItemModel { size, color, stock } = item_data;
                let rec = &self.items[ix];
                let updated = ItemRecord {
                    id: rec.id,
                    product_id: rec.product_id,
                    size: match size {
                        Some(s) => Some(s),
                        None => crate::models::clone_opt_string(&rec.size),
                    },
                    color: match color {
                        Some(c) => Some(c),
                        None => crate::models::clone_opt_string(&rec.color),
                    },
                    stock: match stock {
                        Some(st) => st,
                        None => rec.stock,
                    },
                };
                self.items.set(ix, updated);
                proof {
                    assert(self@.items =~= old(self)@.items.update(
                        ix as int,
                        updated_item_record(old(self)@.items[ix as int], item_data@),
                    ));
                    assert(self@.products =~= old(self)@.products);
                }
                let rec = &self.items[ix];
                Ok(
                    ItemModel {
                        id: Some(rec.id),
                        product_id: rec.product_id,
                        color: opt_string_or_empty(&rec.color),
                        stock: rec.stock,
                        size: opt_string_or_empty(&rec.size),
                    },
                )
            },
        }
    }

    /// Removes the item row with the given id; an absent id is reported
    /// as not found, never as a store failure.
    pub fn delete_item_in_db(&mut self, item_id: i32) -> (r: Result<bool, NotFoundErrorModel>)
        requires
            old(self)@.wf(),
        ensures
            final(self)@.wf(),
            !has_item_id(old(self)@.items, item_id as int) ==> {
                &&& r matches Err(NotFoundErrorModel::NotFoundError(m)) && m@ == "Item not found"@
                &&& final(self)@ == old(self)@
            },
            has_item_id(old(self)@.items, item_id as int) ==> {
                &&& r == Ok::<bool, NotFoundErrorModel>(true)
                &&& final(self)@.items == old(self)@.items.remove(
                    item_index(old(self)@.items, item_id as int),
                )
                &&& final(self)@.products == old(self)@.products
                &&& final(self)@.next_product_id == old(self)@.next_product_id
                &&& final(self)@.next_item_id == old(self)@.next_item_id
            },
    {
        match self.item_pos(item_id) {
            None => Err(NotFoundErrorModel::NotFoundError("Item not found".to_owned())),
            Some(ix) => {
                proof {
                    lemma_item_index_is(old(self)@.items, ix as int, item_id as int);
                }
                self.items.remove(ix);
                proof {
                    assert(self@.items =~= old(self)@.items.remove(ix as int));
                    assert(self@.products =~= old(self)@.products);
                }
                Ok(true)
            },
        }
    }
}

} // verus!
