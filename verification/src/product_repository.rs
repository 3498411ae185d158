//! Product table operations: insert, listing with related items, partial
//! update, and the cascading delete of a product with its items.

use vstd::prelude::*;

use crate::models::{
    CreateProductModal, ErrorModel, ItemModel, NotFoundErrorModel, ProductItemModel,
    UpdateProductModal, WholeProductModel,
};
use crate::store::{
    has_product_id, items_of_product, lemma_has_product_id_remove, lemma_product_index_is,
    lemma_without_product_items_props, product_as_model, product_index, product_listing,
    product_record_of_request, updated_product_record, without_product_items, ProductRecord, Store,
};

verus! {

impl Store {
    /// Inserts a product row under a fresh id, with both timestamps set
    /// to `now`. The store refuses the insert when the auto-increment
    /// counter is exhausted.
    pub fn create_product_in_db(&mut self, request: CreateProductModal, now: i64) -> (r: Result<
        WholeProductModel,
        ErrorModel,
    >)
        requires
            old(self)@.wf(),
        ensures
            final(self)@.wf(),
            old(self)@.next_product_id == i32::MAX ==> {
                &&& r matches Err(ErrorModel::DatabaseError(m)) && m@ == "Failed to create product"@
                &&& final(self)@ == old(self)@
            },
            old(self)@.next_product_id < i32::MAX ==> {
                &&& r matches Ok(p) && p@ == product_as_model(
                    product_record_of_request(request@, old(self)@.next_product_id, now as int),
                )
                &&& final(self)@.products == old(self)@.products.push(
                    product_record_of_request(request@, old(self)@.next_product_id, now as int),
                )
                &&& final(self)@.items == old(self)@.items
                &&& final(self)@.next_product_id == old(self)@.next_product_id + 1
                &&& final(self)@.next_item_id == old(self)@.next_item_id
            },
    {
        if self.next_product_id == i32::MAX {
            return Err(ErrorModel::DatabaseError("Failed to create product".to_owned()));
        }
        let id = self.next_product_id;
        self.next_product_id = self.next_product_id + 1;
        let record = ProductRecord {
            id,
            name: request.name.clone(),
            description: crate::models::clone_opt_string(&request.description),
            created_at: now,
            updated_at: now,
        };
        self.products.push(record);
        proof {
            assert(self@.products =~= old(self)@.products.push(
                product_record_of_request(request@, old(self)@.next_product_id, now as int),
            ));
            assert(self@.items =~= old(self)@.items);
            let newp = self@.products;
            let oldp = old(self)@.products;
            assert forall|i1: int, j1: int|
                0 <= i1 < j1 < newp.len() implies (#[trigger] newp[i1]).id
                != (#[trigger] newp[j1]).id by {
                if j1 < oldp.len() {
                    assert(oldp[i1].id != oldp[j1].id);
                } else {
                    assert(newp[i1] == oldp[i1]);
                    assert(oldp[i1].id < old(self)@.next_product_id);
                }
            }
            assert forall|k: int|
                0 <= k < self@.items.len() implies has_product_id(
                newp,
                (#[trigger] self@.items[k]).product_id,
            ) by {
                assert(has_product_id(oldp, self@.items[k].product_id));
                let m = choose|m: int|
                    0 <= m < oldp.len() && (#[trigger] oldp[m]).id == self@.items[k].product_id;
                assert(newp[m] == oldp[m]);
            }
        }
        Ok(
            WholeProductModel {
                id,
                name: request.name,
                description: request.description,
                created_at: now,
                updated_at: now,
            },
        )
    }

    /// Fetches the product row with the given id as a client model.
    pub fn find_product(&self, product_id: i32) -> (r: Option<WholeProductModel>)
        requires
            self@.wf(),
        ensures
            has_product_id(self@.products, product_id as int) ==> {
                &&& r matches Some(p) && p@ == product_as_model(
                    self@.products[product_index(self@.products, product_id as int)],
                )
            },
            !has_product_id(self@.products, product_id as int) ==> r is None,
    {
        match self.product_pos(product_id) {
            None => None,
            Some(ix) => {
                proof {
                    lemma_product_index_is(self@.products, ix as int, product_id as int);
                }
                Some(self.products[ix].as_model())
            },
        }
    }

    /// The client views of the item rows referencing product `pid`, in
    /// table order.
    fn items_for_product(&self, pid: i32) -> (out: Vec<ItemModel>)
        ensures
            out@.map_values(|m: ItemModel| m@) == items_of_product(self@.items, pid as int),
    {
        let mut out: Vec<ItemModel> = Vec::new();
        let ghost all = self@.items;
        let mut j: usize = 0;
        proof {
            assert(out@.map_values(|m: ItemModel| m@) =~= items_of_product(
                all.take(0),
                pid as int,
            ));
        }
        while j < self.items.len()
            invariant
                j <= self.items.len(),
                all == self@.items,
                out@.map_values(|m: ItemModel| m@) == items_of_product(all.take(j as int), pid as int),
            decreases self.items.len() - j,
        {
            let ghost prev = out@.map_values(|m: ItemModel| m@);
            proof {
                assert(all.take(j + 1).drop_last() =~= all.take(j as int));
                assert(all.take(j + 1).last() == all[j as int]);
            }
            if self.items[j].product_id == pid {
                let model = self.items[j].as_model();
                out.push(model);
                proof {
                    assert(out@.map_values(|m: ItemModel| m@) =~= prev.push(
                        crate::store::item_as_model(all[j as int]),
                    ));
                }
            }
            j += 1;
        }
        proof {
            assert(all.take(self.items@.len() as int) =~= all);
        }
        out
    }

    /// Lists every product in table order, each with the items that
    /// reference it; an empty store yields an empty listing, not an
    /// error.
    pub fn get_all_products_from_db(&self) -> (r: Result<Vec<ProductItemModel>, ErrorModel>)
        requires
            self@.wf(),
        ensures
            r matches Ok(v) && v@.map_values(|p: ProductItemModel| p@) == product_listing(self@),
    {
        let mut out: Vec<ProductItemModel> = Vec::new();
        let mut i: usize = 0;
        while i < self.products.len()
            invariant
                i <= self.products.len(),
                self@.wf(),
                out@.len() == i,
                forall|k: int|
                    0 <= k < i ==> (#[trigger] out@[k])@ == product_listing(self@)[k],
            decreases self.products.len() - i,
        {
            let rec = &self.products[i];
            let items = self.items_for_product(rec.id);
            let entry = ProductItemModel {
                id: rec.id,
                name: rec.name.clone(),
                description: crate::models::clone_opt_string(&rec.description),
                items,
            };
            out.push(entry);
            i += 1;
        }
        proof {
            assert(out@.map_values(|p: ProductItemModel| p@) =~= product_listing(self@));
        }
        Ok(out)
    }

    /// Overwrites the fields of a product row that the partial update
    /// supplies: an absent `name` keeps the stored name, `description`
    /// is always overwritten, and `updated_at` is set to `now`.
    pub fn update_product_in_db(
        &mut self,
        product_id: i32,
        product_data: UpdateProductModal,
        now: i64,
    ) -> (r: Result<WholeProductModel, NotFoundErrorModel>)
        requires
            old(self)@.wf(),
        ensures
            final(self)@.wf(),
            !has_product_id(old(self)@.products, product_id as int) ==> {
                &&& r matches Err(NotFoundErrorModel::NotFoundError(m)) && m@
                    == "Product not found"@
                &&& final(self)@ == old(self)@
            },
            has_product_id(old(self)@.products, product_id as int) ==> {
                let ix = product_index(old(self)@.products, product_id as int);
                let updated = updated_product_record(
                    old(self)@.products[ix],
                    product_data@,
                    now as int,
                );
                &&& r matches Ok(p) && p@ == product_as_model(updated)
                &&& final(self)@.products == old(self)@.products.update(ix, updated)
                &&& final(self)@.items == old(self)@.items
                &&& final(self)@.next_product_id == old(self)@.next_product_id
                &&& final(self)@.next_item_id == old(self)@.next_item_id
            },
    {
        match self.product_pos(product_id) {
            None => Err(NotFoundErrorModel::NotFoundError("Product not found".to_owned())),
            Some(ix) => {
                proof {
                    lemma_product_index_is(old(self)@.products, ix as int, product_id as int);
                }
                let UpdateProductModal { name, description } = product_data;
                let rec = &self.products[ix];
                let updated = ProductRecord {
                    id: rec.id,
                    name: match name {
                        Some(n) => n,
                        None => rec.name.clone(),
                    },
                    description,
                    created_at: rec.created_at,
                    updated_at: now,
                };
                self.products.set(ix, updated);
                proof {
                    assert(self@.products =~= old(self)@.products.update(
                        ix as int,
                        updated_product_record(
                            old(self)@.products[ix as int],
                            product_data@,
                            now as int,
                        ),
                    ));
                    assert(self@.items =~= old(self)@.items);
                    let newp = self@.products;
                    let oldp = old(self)@.products;
                    assert forall|k: int|
                        0 <= k < newp.len() implies (#[trigger] newp[k]).id == oldp[k].id by {
                        if k != ix {
                            assert(newp[k] == oldp[k]);
                        }
                    }
                    assert forall|k: int|
                        0 <= k < self@.items.len() implies has_product_id(
                        newp,
                        (#[trigger] self@.items[k]).product_id,
                    ) by {
                        assert(has_product_id(oldp, self@.items[k].product_id));
                        let m = choose|m: int|
                            0 <= m < oldp.len() && (#[trigger] oldp[m]).id
                                == self@.items[k].product_id;
                        assert(newp[m].id == oldp[m].id);
                    }
                }
                Ok(self.products[ix].as_model())
            },
        }
    }

    /// Deletes a product together with every item referencing it, as one
    /// atomic operation; an absent id is reported as not found, never as
    /// a store failure.
    pub fn delete_product_in_db(&mut self, product_id: i32) -> (r: Result<
        bool,
        NotFoundErrorModel,
    >)
        requires
            old(self)@.wf(),
        ensures
            final(self)@.wf(),
            !has_product_id(old(self)@.products, product_id as int) ==> {
                &&& r matches Err(NotFoundErrorModel::NotFoundError(m)) && m@
                    == "Product not found"@
                &&& final(self)@ == old(self)@
            },
            has_product_id(old(self)@.products, product_id as int) ==> {
                &&& r == Ok::<bool, NotFoundErrorModel>(true)
                &&& final(self)@.products == old(self)@.products.remove(
                    product_index(old(self)@.products, product_id as int),
                )
                &&& final(self)@.items == without_product_items(old(self)@.items, product_id as int)
                &&& final(self)@.next_product_id == old(self)@.next_product_id
                &&& final(self)@.next_item_id == old(self)@.next_item_id
            },
    {
        match self.product_pos(product_id) {
            None => Err(NotFoundErrorModel::NotFoundError("Product not found".to_owned())),
            Some(ix) => {
                proof {
                    lemma_product_index_is(old(self)@.products, ix as int, product_id as int);
                }
                let ghost all = self@.items;
                let mut kept: Vec<crate::store::ItemRecord> = Vec::new();
                let mut j: usize = 0;
                proof {
                    assert(kept@.map_values(|it: crate::store::ItemRecord| it@)
                        =~= without_product_items(all.take(0), product_id as int));
                }
                while j < self.items.len()
                    invariant
                        j <= self.items.len(),
                        all == self@.items,
                        kept@.map_values(|it: crate::store::ItemRecord| it@)
                            == without_product_items(all.take(j as int), product_id as int),
                    decreases self.items.len() - j,
                {
                    let ghost prev = kept@.map_values(|it: crate::store::ItemRecord| it@);
                    proof {
                        assert(all.take(j + 1).drop_last() =~= all.take(j as int));
                        assert(all.take(j + 1).last() == all[j as int]);
                    }
                    if self.items[j].product_id != product_id {
                        let copy = self.items[j].duplicate();
                        kept.push(copy);
                        proof {
                            assert(kept@.map_values(|it: crate::store::ItemRecord| it@)
                                =~= prev.push(all[j as int]));
                        }
                    }
                    j += 1;
                }
                proof {
                    assert(all.take(self.items@.len() as int) =~= all);
                }
                self.items = kept;
                self.products.remove(ix);
                proof {
                    assert(self@.items =~= without_product_items(
                        old(self)@.items,
                        product_id as int,
                    ));
                    assert(self@.products =~= old(self)@.products.remove(ix as int));
                    lemma_without_product_items_props(old(self)@.items, product_id as int);
                    old(self)@.products.remove_ensures(ix as int);
                    assert forall|k: int|
                        0 <= k < self@.items.len() implies has_product_id(
                        self@.products,
                        (#[trigger] self@.items[k]).product_id,
                    ) by {
                        let m = choose|m: int|
                            0 <= m < old(self)@.items.len() && #[trigger] old(self)@.items[m]
                                == self@.items[k];
                        assert(has_product_id(old(self)@.products, self@.items[k].product_id));
                        lemma_has_product_id_remove(
                            old(self)@.products,
                            ix as int,
                            self@.items[k].product_id,
                        );
                    }
                    assert forall|i1: int, j1: int|
                        0 <= i1 < j1 < self@.products.len() implies (#[trigger] self@.products[i1]).id
                        != (#[trigger] self@.products[j1]).id by {
                        if j1 < ix {
                            assert(old(self)@.products[i1].id != old(self)@.products[j1].id);
                        } else if i1 < ix {
                            assert(old(self)@.products[i1].id != old(self)@.products[j1 + 1].id);
                        } else {
                            assert(old(self)@.products[i1 + 1].id != old(self)@.products[j1 + 1].id);
                        }
                    }
                    assert forall|k: int|
                        0 <= k < self@.products.len() implies 1 <= (#[trigger] self@.products[k]).id
                        < self@.next_product_id by {
                        if k < ix {
                            assert(self@.products[k] == old(self)@.products[k]);
                        } else {
                            assert(self@.products[k] == old(self)@.products[k + 1]);
                        }
                    }
                    assert forall|k: int|
                        0 <= k < self@.items.len() implies 1 <= (#[trigger] self@.items[k]).id
                        < self@.next_item_id by {
                        let m = choose|m: int|
                            0 <= m < old(self)@.items.len() && #[trigger] old(self)@.items[m]
                                == self@.items[k];
                    }
                }
                Ok(true)
            },
        }
    }

    /// The cascading-delete transaction run against a store whose two
    /// delete statements — items first, then the product row — may each
    /// fail. A failure of either statement rolls the whole transaction
    /// back: the store is left exactly as it was and a store failure is
    /// reported, so no partial deletion is ever observable.
    pub fn delete_product_transaction(
        &mut self,
        product_id: i32,
        items_delete_ok: bool,
        product_delete_ok: bool,
    ) -> (r: Result<bool, NotFoundErrorModel>)
        requires
            old(self)@.wf(),
        ensures
            final(self)@.wf(),
            !has_product_id(old(self)@.products, product_id as int) ==> {
                &&& r matches Err(NotFoundErrorModel::NotFoundError(m)) && m@
                    == "Product not found"@
                &&& final(self)@ == old(self)@
            },
            has_product_id(old(self)@.products, product_id as int) && items_delete_ok
                && product_delete_ok ==> {
                &&& r == Ok::<bool, NotFoundErrorModel>(true)
                &&& final(self)@.products == old(self)@.products.remove(
                    product_index(old(self)@.products, product_id as int),
                )
                &&& final(self)@.items == without_product_items(old(self)@.items, product_id as int)
                &&& final(self)@.next_product_id == old(self)@.next_product_id
                &&& final(self)@.next_item_id == old(self)@.next_item_id
            },
            has_product_id(old(self)@.products, product_id as int) && !(items_delete_ok
                && product_delete_ok) ==> {
                &&& r matches Err(NotFoundErrorModel::DatabaseError(m)) && m@
                    == "Failed to delete product"@
                &&& final(self)@ == old(self)@
            },
    {
        match self.product_pos(product_id) {
            None => Err(NotFoundErrorModel::NotFoundError("Product not found".to_owned())),
            Some(_) => {
                if items_delete_ok && product_delete_ok {
                    self.delete_product_in_db(product_id)
                } else {
                    Err(NotFoundErrorModel::DatabaseError("Failed to delete product".to_owned()))
                }
            },
        }
    }
}

} // verus!
