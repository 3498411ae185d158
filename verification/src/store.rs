//! The relational store: a `product` table and an `item` table with
//! auto-assigned integer primary keys, and the mathematical model that
//! every operation is specified against.
//!
//! Well-formedness (`StoreV::wf`) captures what the schema enforces:
//! distinct primary keys below the auto-increment counters, and the
//! foreign key from every item to a live product.

use vstd::prelude::*;

use crate::models::{
    CreateProductModalV, GetItemModelV, ItemModelV, UpdateItemModelV, UpdateProductModalV,
    WholeProductModelV,
};

verus! {

/// A row of the `product` table.
pub struct ProductRecord {
    pub id: i32,
    pub name: String,
    pub description: Option<String>,
    pub created_at: i64,
    pub updated_at: i64,
}

/// A row of the `item` table. `size` and `color` are nullable columns.
pub struct ItemRecord {
    pub id: i32,
    pub product_id: i32,
    pub size: Option<String>,
    pub color: Option<String>,
    pub stock: i32,
}

pub ghost struct ProductRecordV {
    pub id: int,
    pub name: Seq<char>,
    pub description: Option<Seq<char>>,
    pub created_at: int,
    pub updated_at: int,
}

pub ghost struct ItemRecordV {
    pub id: int,
    pub product_id: int,
    pub size: Option<Seq<char>>,
    pub color: Option<Seq<char>>,
    pub stock: int,
}

impl View for ProductRecord {
    type V = ProductRecordV;

    open spec fn view(&self) -> ProductRecordV {
        ProductRecordV {
            id: self.id as int,
            name: self.name@,
            description: crate::models::opt_str_view(self.description),
            created_at: self.created_at as int,
            updated_at: self.updated_at as int,
        }
    }
}

impl View for ItemRecord {
    type V = ItemRecordV;

    open spec fn view(&self) -> ItemRecordV {
        ItemRecordV {
            id: self.id as int,
            product_id: self.product_id as int,
            size: crate::models::opt_str_view(self.size),
            color: crate::models::opt_str_view(self.color),
            stock: self.stock as int,
        }
    }
}

/// The store: both tables and their auto-increment counters.
pub struct Store {
    pub products: Vec<ProductRecord>,
    pub items: Vec<ItemRecord>,
    pub next_product_id: i32,
    pub next_item_id: i32,
}

pub ghost struct StoreV {
    pub products: Seq<ProductRecordV>,
    pub items: Seq<ItemRecordV>,
    pub next_product_id: int,
    pub next_item_id: int,
}

impl View for Store {
    type V = StoreV;

    open spec fn view(&self) -> StoreV {
        StoreV {
            products: self.products@.map_values(|p: ProductRecord| p@),
            items: self.items@.map_values(|i: ItemRecord| i@),
            next_product_id: self.next_product_id as int,
            next_item_id: self.next_item_id as int,
        }
    }
}

/// Whether some product row carries the given id.
pub open spec fn has_product_id(products: Seq<ProductRecordV>, id: int) -> bool {
    exists|k: int| 0 <= k < products.len() && (#[trigger] products[k]).id == id
}

/// The index of the product row carrying the given id; meaningful only
/// when such a row exists and ids are distinct.
pub open spec fn product_index(products: Seq<ProductRecordV>, id: int) -> int {
    choose|k: int| 0 <= k < products.len() && (#[trigger] products[k]).id == id
}

/// Whether some item row carries the given id.
pub open spec fn has_item_id(items: Seq<ItemRecordV>, id: int) -> bool {
    exists|k: int| 0 <= k < items.len() && (#[trigger] items[k]).id == id
}

/// The index of the item row carrying the given id; meaningful only
/// when such a row exists and ids are distinct.
pub open spec fn item_index(items: Seq<ItemRecordV>, id: int) -> int {
    choose|k: int| 0 <= k < items.len() && (#[trigger] items[k]).id == id
}

/// Pairwise-distinct product ids.
pub open spec fn product_ids_distinct(products: Seq<ProductRecordV>) -> bool {
    forall|i: int, j: int|
        0 <= i < j < products.len() ==> (#[trigger] products[i]).id != (#[trigger] products[j]).id
}

/// Pairwise-distinct item ids.
pub open spec fn item_ids_distinct(items: Seq<ItemRecordV>) -> bool {
    forall|i: int, j: int|
        0 <= i < j < items.len() ==> (#[trigger] items[i]).id != (#[trigger] items[j]).id
}

impl StoreV {
    /// What the schema enforces: counters in range, primary keys distinct
    /// and below their counter, and the foreign key of every item.
    pub open spec fn wf(self) -> bool {
        &&& 1 <= self.next_product_id <= i32::MAX
        &&& 1 <= self.next_item_id <= i32::MAX
        &&& forall|k: int|
            0 <= k < self.products.len() ==> 1 <= (#[trigger] self.products[k]).id
                < self.next_product_id
        &&& product_ids_distinct(self.products)
        &&& forall|k: int|
            0 <= k < self.items.len() ==> 1 <= (#[trigger] self.items[k]).id < self.next_item_id
        &&& item_ids_distinct(self.items)
        &&& forall|k: int|
            0 <= k < self.items.len() ==> has_product_id(
                self.products,
                (#[trigger] self.items[k]).product_id,
            )
    }
}

/// When product ids are distinct, an index holding a given id is the one
/// that `product_index` names.
pub proof fn lemma_product_index_is(products: Seq<ProductRecordV>, ix: int, id: int)
    requires
        product_ids_distinct(products),
        0 <= ix < products.len(),
        products[ix].id == id,
    ensures
        has_product_id(products, id),
        product_index(products, id) == ix,
{
    assert(has_product_id(products, id));
    let k = product_index(products, id);
    if k != ix {
        assert(products[k].id != products[ix].id);
    }
}

/// When item ids are distinct, an index holding a given id is the one
/// that `item_index` names.
pub proof fn lemma_item_index_is(items: Seq<ItemRecordV>, ix: int, id: int)
    requires
        item_ids_distinct(items),
        0 <= ix < items.len(),
        items[ix].id == id,
    ensures
        has_item_id(items, id),
        item_index(items, id) == ix,
{
    assert(has_item_id(items, id));
    let k = item_index(items, id);
    if k != ix {
        assert(items[k].id != items[ix].id);
    }
}

/// A nullable column defaulted to the empty string for the client view.
pub open spec fn opt_or_empty(o: Option<Seq<char>>) -> Seq<char> {
    match o {
        Some(s) => s,
        None => Seq::empty(),
    }
}

/// The client view of an item row.
pub open spec fn item_as_model(i: ItemRecordV) -> ItemModelV {
    ItemModelV {
        id: Some(i.id),
        product_id: i.product_id,
        color: opt_or_empty(i.color),
        stock: i.stock,
        size: opt_or_empty(i.size),
    }
}

/// The client view of a product row.
pub open spec fn product_as_model(p: ProductRecordV) -> WholeProductModelV {
    WholeProductModelV {
        id: p.id,
        name: p.name,
        description: p.description,
        created_at: p.created_at,
        updated_at: p.updated_at,
    }
}

/// The item row inserted for a create request, under the assigned id.
pub open spec fn item_record_of_request(req: GetItemModelV, id: int) -> ItemRecordV {
    ItemRecordV {
        id: id,
        product_id: req.product_id,
        size: Some(req.size),
        color: Some(req.color),
        stock: req.stock,
    }
}

/// The product row inserted for a create request, under the assigned id,
/// with both timestamps set to the creation instant.
pub open spec fn product_record_of_request(
    req: CreateProductModalV,
    id: int,
    now: int,
) -> ProductRecordV {
    ProductRecordV {
        id: id,
        name: req.name,
        description: req.description,
        created_at: now,
        updated_at: now,
    }
}

/// A product row after a partial update at instant `now`: an absent `name`
/// keeps the stored name, `description` is overwritten with whatever was
/// supplied, and `updated_at` is rewritten.
pub open spec fn updated_product_record(
    p: ProductRecordV,
    data: UpdateProductModalV,
    now: int,
) -> ProductRecordV {
    ProductRecordV {
        id: p.id,
        name: match data.name {
            Some(n) => n,
            None => p.name,
        },
        description: data.description,
        created_at: p.created_at,
        updated_at: now,
    }
}

/// An item row after a partial update: each absent field keeps its stored
/// value.
pub open spec fn updated_item_record(i: ItemRecordV, data: UpdateItemModelV) -> ItemRecordV {
    ItemRecordV {
        id: i.id,
        product_id: i.product_id,
        size: match data.size {
            Some(s) => Some(s),
            None => i.size,
        },
        color: match data.color {
            Some(c) => Some(c),
            None => i.color,
        },
        stock: match data.stock {
            Some(st) => st,
            None => i.stock,
        },
    }
}

/// The item rows that survive deleting the product with id `pid`.
pub open spec fn without_product_items(items: Seq<ItemRecordV>, pid: int) -> Seq<ItemRecordV>
    decreases items.len(),
{
    if items.len() == 0 {
        Seq::empty()
    } else {
        let rest = without_product_items(items.drop_last(), pid);
        if items.last().product_id == pid {
            rest
        } else {
            rest.push(items.last())
        }
    }
}

/// The client views of the item rows that reference the product with id
/// `pid`, in table order.
pub open spec fn items_of_product(items: Seq<ItemRecordV>, pid: int) -> Seq<ItemModelV>
    decreases items.len(),
{
    if items.len() == 0 {
        Seq::empty()
    } else {
        let rest = items_of_product(items.drop_last(), pid);
        if items.last().product_id == pid {
            rest.push(item_as_model(items.last()))
        } else {
            rest
        }
    }
}

/// Every product in table order, each with the items that reference it.
pub open spec fn product_listing(s: StoreV) -> Seq<crate::models::ProductItemModelV> {
    Seq::new(
        s.products.len(),
        |i: int|
            crate::models::ProductItemModelV {
                id: s.products[i].id,
                name: s.products[i].name,
                description: s.products[i].description,
                items: items_of_product(s.items, s.products[i].id),
            },
    )
}

impl Store {
    /// An empty store; the auto-increment counters start at 1.
    pub fn new() -> (s: Store)
        ensures
            s@.wf(),
            s@.products.len() == 0,
            s@.items.len() == 0,
            s@.next_product_id == 1,
            s@.next_item_id == 1,
    {
        Store { products: Vec::new(), items: Vec::new(), next_product_id: 1, next_item_id: 1 }
    }

    /// The index of the product row with the given id, scanning in table
    /// order; `None` when no row carries it.
    pub(crate) fn product_pos(&self, id: i32) -> (r: Option<usize>)
        ensures
            match r {
                Some(ix) => (ix as int) < self@.products.len() && self@.products[ix as int].id
                    == id as int,
                None => !has_product_id(self@.products, id as int),
            },
    {
        let mut ix: usize = 0;
        while ix < self.products.len()
            invariant
                ix <= self.products.len(),
                forall|k: int| 0 <= k < ix ==> (#[trigger] self@.products[k]).id != id as int,
            decreases self.products.len() - ix,
        {
            if self.products[ix].id == id {
                return Some(ix);
            }
            ix += 1;
        }
        None
    }

    /// The index of the item row with the given id, scanning in table
    /// order; `None` when no row carries it.
    pub(crate) fn item_pos(&self, id: i32) -> (r: Option<usize>)
        ensures
            match r {
                Some(ix) => (ix as int) < self@.items.len() && self@.items[ix as int].id
                    == id as int,
                None => !has_item_id(self@.items, id as int),
            },
    {
        let mut ix: usize = 0;
        while ix < self.items.len()
            invariant
                ix <= self.items.len(),
                forall|k: int| 0 <= k < ix ==> (#[trigger] self@.items[k]).id != id as int,
            decreases self.items.len() - ix,
        {
            if self.items[ix].id == id {
                return Some(ix);
            }
            ix += 1;
        }
        None
    }
}

/// Every row that survives deleting the items of product `pid` already
/// stood in the table, references another product, and — when item ids
/// were distinct — the survivors' ids are distinct too.
pub proof fn lemma_without_product_items_props(items: Seq<ItemRecordV>, pid: int)
    ensures
        forall|k: int|
            0 <= k < without_product_items(items, pid).len() ==> (#[trigger] without_product_items(
                items,
                pid,
            )[k]).product_id != pid && exists|m: int|
                0 <= m < items.len() && #[trigger] items[m] == without_product_items(
                    items,
                    pid,
                )[k],
        item_ids_distinct(items) ==> item_ids_distinct(without_product_items(items, pid)),
    decreases items.len(),
{
    let w = without_product_items(items, pid);
    if items.len() == 0 {
    } else {
        let prefix = items.drop_last();
        let last = items.last();
        lemma_without_product_items_props(prefix, pid);
        let wp = without_product_items(prefix, pid);
        assert(forall|m: int| 0 <= m < prefix.len() ==> #[trigger] prefix[m] == items[m]);
        if item_ids_distinct(items) {
            assert(item_ids_distinct(prefix));
        }
        assert forall|k: int| 0 <= k < w.len() implies (#[trigger] w[k]).product_id != pid
            && exists|m: int| 0 <= m < items.len() && #[trigger] items[m] == w[k] by {
            if k < wp.len() {
                assert(w[k] == wp[k]);
                let m = choose|m: int| 0 <= m < prefix.len() && #[trigger] prefix[m] == wp[k];
                assert(items[m] == w[k]);
            } else {
                assert(w[k] == last);
                assert(items[items.len() - 1] == w[k]);
            }
        }
        if item_ids_distinct(items) {
            assert forall|i: int, j: int| 0 <= i < j < w.len() implies (#[trigger] w[i]).id
                != (#[trigger] w[j]).id by {
                if j < wp.len() {
                    assert(wp[i].id != wp[j].id);
                } else {
                    assert(w[j] == last);
                    assert(w[i] == wp[i]);
                    let m = choose|m: int| 0 <= m < prefix.len() && #[trigger] prefix[m] == wp[i];
                    assert(items[m].id != items[items.len() - 1].id);
                }
            }
        }
    }
}

/// Removing one product row keeps every other id present.
pub proof fn lemma_has_product_id_remove(products: Seq<ProductRecordV>, ix: int, id: int)
    requires
        0 <= ix < products.len(),
        has_product_id(products, id),
        products[ix].id != id,
    ensures
        has_product_id(products.remove(ix), id),
{
    let k = choose|k: int| 0 <= k < products.len() && (#[trigger] products[k]).id == id;
    products.remove_ensures(ix);
    if k < ix {
        assert(products.remove(ix)[k] == products[k]);
    } else {
        assert(products.remove(ix)[k - 1] == products[k]);
    }
}

/// A nullable column defaulted to the empty string, as executable code.
pub fn opt_string_or_empty(o: &Option<String>) -> (r: String)
    ensures
        r@ == opt_or_empty(crate::models::opt_str_view(*o)),
{
    match o {
        Some(s) => s.clone(),
        None => String::new(),
    }
}

impl ProductRecord {
    /// The client model of the row.
    pub(crate) fn as_model(&self) -> (r: crate::models::WholeProductModel)
        ensures
            r@ == product_as_model(self@),
    {
        crate::models::WholeProductModel {
            id: self.id,
            name: self.name.clone(),
            description: crate::models::clone_opt_string(&self.description),
            created_at: self.created_at,
            updated_at: self.updated_at,
        }
    }
}

impl ItemRecord {
    /// A copy of the row, equal to it.
    pub(crate) fn duplicate(&self) -> (r: ItemRecord)
        ensures
            r == *self,
    {
        ItemRecord {
            id: self.id,
            product_id: self.product_id,
            size: crate::models::clone_opt_string(&self.size),
            color: crate::models::clone_opt_string(&self.color),
            stock: self.stock,
        }
    }

    /// The client model of the row; absent optional columns come back as
    /// empty strings.
    pub(crate) fn as_model(&self) -> (r: crate::models::ItemModel)
        ensures
            r@ == item_as_model(self@),
    {
        crate::models::ItemModel {
            id: Some(self.id),
            product_id: self.product_id,
            color: opt_string_or_empty(&self.color),
            stock: self.stock,
            size: opt_string_or_empty(&self.size),
        }
    }
}

} // verus!
