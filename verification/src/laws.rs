//! The general laws of the service, proved over the store model that
//! the executable contracts are stated against.

use vstd::prelude::*;

use crate::models::{GetItemModelV, ItemModelV, UpdateProductModalV};
use crate::store::{
    has_item_id, item_as_model, item_ids_distinct, item_index, item_record_of_request,
    items_of_product, lemma_item_index_is, lemma_without_product_items_props, product_listing,
    updated_product_record, without_product_items, ItemRecordV, StoreV,
};

verus! {

/// An item model built by `items_of_product` for a matching row.
proof fn lemma_items_of_product_contains(items: Seq<ItemRecordV>, pid: int, ii: int)
    requires
        0 <= ii < items.len(),
        items[ii].product_id == pid,
    ensures
        items_of_product(items, pid).contains(item_as_model(items[ii])),
    decreases items.len(),
{
    let rest = items_of_product(items.drop_last(), pid);
    if ii == items.len() - 1 {
        assert(items_of_product(items, pid)[rest.len() as int] == item_as_model(items[ii]));
    } else {
        assert(items.drop_last()[ii] == items[ii]);
        lemma_items_of_product_contains(items.drop_last(), pid, ii);
        let k = choose|k: int|
            0 <= k < rest.len() && #[trigger] rest[k] == item_as_model(items[ii]);
        assert(items_of_product(items, pid)[k] == item_as_model(items[ii]));
    }
}

/// For any product row and any item row that references it, the full
/// listing carries that item nested under that product.
pub proof fn lemma_listing_contains_item(s: StoreV, pi: int, ii: int)
    requires
        s.wf(),
        0 <= pi < s.products.len(),
        0 <= ii < s.items.len(),
        s.items[ii].product_id == s.products[pi].id,
    ensures
        product_listing(s).len() == s.products.len(),
        product_listing(s)[pi].id == s.products[pi].id,
        product_listing(s)[pi].items.contains(item_as_model(s.items[ii])),
{
    lemma_items_of_product_contains(s.items, s.products[pi].id, ii);
}

/// Deleting a product removes exactly the items that referenced it: no
/// surviving row carries its id as foreign key, and the id of every
/// removed item no longer names a row, so fetching it finds nothing.
pub proof fn lemma_cascade_delete(s: StoreV, pid: int)
    requires
        s.wf(),
    ensures
        forall|k: int|
            0 <= k < without_product_items(s.items, pid).len() ==> (#[trigger] without_product_items(
                s.items,
                pid,
            )[k]).product_id != pid,
        forall|k: int|
            0 <= k < s.items.len() && (#[trigger] s.items[k]).product_id == pid ==> !has_item_id(
                without_product_items(s.items, pid),
                s.items[k].id,
            ),
{
    lemma_without_product_items_props(s.items, pid);
    let w = without_product_items(s.items, pid);
    assert forall|k: int|
        0 <= k < s.items.len() && (#[trigger] s.items[k]).product_id == pid implies !has_item_id(
        w,
        s.items[k].id,
    ) by {
        if has_item_id(w, s.items[k].id) {
            let j = choose|j: int| 0 <= j < w.len() && (#[trigger] w[j]).id == s.items[k].id;
            let m = choose|m: int| 0 <= m < s.items.len() && #[trigger] s.items[m] == w[j];
            if m < k {
                assert(s.items[m].id != s.items[k].id);
            } else if k < m {
                assert(s.items[k].id != s.items[m].id);
            }
        }
    }
}

/// A partial update that supplies only a name, applied to a product row
/// with no stored description, keeps `description` and `created_at` and
/// rewrites `updated_at` to the update instant, which never moves it
/// backwards when the clock has not gone backwards.
pub proof fn lemma_update_name_only(p: crate::store::ProductRecordV, data: UpdateProductModalV, now: int)
    requires
        data.name is Some,
        data.description is None,
        p.description is None,
        p.updated_at <= now,
    ensures
        updated_product_record(p, data, now).id == p.id,
        updated_product_record(p, data, now).name == data.name.unwrap(),
        updated_product_record(p, data, now).description == p.description,
        updated_product_record(p, data, now).created_at == p.created_at,
        updated_product_record(p, data, now).updated_at == now,
        updated_product_record(p, data, now).updated_at >= p.updated_at,
{
}

/// Round trip: the item row inserted for a create request is found
/// under its assigned id, and its client model carries exactly the
/// requested field values.
pub proof fn lemma_create_item_round_trip(s: StoreV, req: GetItemModelV)
    requires
        s.wf(),
        s.next_item_id < i32::MAX,
    ensures
        ({
            let items2 = s.items.push(item_record_of_request(req, s.next_item_id));
            &&& has_item_id(items2, s.next_item_id)
            &&& item_index(items2, s.next_item_id) == s.items.len()
            &&& item_as_model(items2[item_index(items2, s.next_item_id)]) == (ItemModelV {
                id: Some(s.next_item_id),
                product_id: req.product_id,
                color: req.color,
                stock: req.stock,
                size: req.size,
            })
        }),
{
    let rec = item_record_of_request(req, s.next_item_id);
    let items2 = s.items.push(rec);
    assert(items2[s.items.len() as int] == rec);
    assert forall|i: int, j: int|
        0 <= i < j < items2.len() implies (#[trigger] items2[i]).id != (#[trigger] items2[j]).id by {
        if j < s.items.len() {
            assert(s.items[i].id != s.items[j].id);
        } else {
            assert(items2[i] == s.items[i]);
            assert(s.items[i].id < s.next_item_id);
        }
    }
    assert(item_ids_distinct(items2));
    lemma_item_index_is(items2, s.items.len() as int, s.next_item_id);
}

} // verus!
