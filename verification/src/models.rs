//! Domain models crossing the service boundary, their mathematical views,
//! and the error taxonomy.
//!
//! Timestamps are plain integers: seconds since the Unix epoch.

use vstd::prelude::*;

verus! {

/// Errors of operations that never look an entity up by id:
/// invalid client input, or a store-level failure.
#[derive(Debug)]
pub enum ErrorModel {
    ValidationError(String),
    DatabaseError(String),
}

/// Errors of operations that address an entity by id: the same two,
/// plus the addressed entity being absent.
pub enum NotFoundErrorModel {
    ValidationError(String),
    DatabaseError(String),
    NotFoundError(String),
}

/// A full item as returned to clients.
pub struct ItemModel {
    pub id: Option<i32>,
    pub product_id: i32,
    pub color: String,
    pub stock: i32,
    pub size: String,
}

/// Input for creating an item.
pub struct GetItemModel {
    pub product_id: i32,
    pub color: String,
    pub size: String,
    pub stock: i32,
}

/// Partial update of an item: absent fields keep their stored value.
pub struct UpdateItemModel {
    pub size: Option<String>,
    pub color: Option<String>,
    pub stock: Option<i32>,
}

/// A full product as returned to clients.
pub struct WholeProductModel {
    pub id: i32,
    pub name: String,
    pub description: Option<String>,
    pub created_at: i64,
    pub updated_at: i64,
}

/// A product without its id.
pub struct ProductModel {
    pub name: String,
    pub description: Option<String>,
    pub created_at: i64,
    pub updated_at: i64,
}

/// Input for creating a product.
pub struct CreateProductModal {
    pub name: String,
    pub description: Option<String>,
}

/// Partial update of a product. An absent `name` keeps the stored name;
/// `description` always overwrites the stored value, so an absent
/// `description` clears it.
pub struct UpdateProductModal {
    pub name: Option<String>,
    pub description: Option<String>,
}

/// A product listed together with the items that reference it.
pub struct ProductItemModel {
    pub id: i32,
    pub name: String,
    pub description: Option<String>,
    pub items: Vec<ItemModel>,
}

/// Mathematical view of an optional string.
pub open spec fn opt_str_view(o: Option<String>) -> Option<Seq<char>> {
    match o {
        Some(s) => Some(s@),
        None => None,
    }
}

/// Mathematical view of an optional machine integer.
pub open spec fn opt_i32_view(o: Option<i32>) -> Option<int> {
    match o {
        Some(v) => Some(v as int),
        None => None,
    }
}

pub ghost struct ItemModelV {
    pub id: Option<int>,
    pub product_id: int,
    pub color: Seq<char>,
    pub stock: int,
    pub size: Seq<char>,
}

pub ghost struct GetItemModelV {
    pub product_id: int,
    pub color: Seq<char>,
    pub size: Seq<char>,
    pub stock: int,
}

pub ghost struct UpdateItemModelV {
    pub size: Option<Seq<char>>,
    pub color: Option<Seq<char>>,
    pub stock: Option<int>,
}

pub ghost struct WholeProductModelV {
    pub id: int,
    pub name: Seq<char>,
    pub description: Option<Seq<char>>,
    pub created_at: int,
    pub updated_at: int,
}

pub ghost struct CreateProductModalV {
    pub name: Seq<char>,
    pub description: Option<Seq<char>>,
}

pub ghost struct UpdateProductModalV {
    pub name: Option<Seq<char>>,
    pub description: Option<Seq<char>>,
}

pub ghost struct ProductItemModelV {
    pub id: int,
    pub name: Seq<char>,
    pub description: Option<Seq<char>>,
    pub items: Seq<ItemModelV>,
}

impl View for ItemModel {
    type V = ItemModelV;

    open spec fn view(&self) -> ItemModelV {
        ItemModelV {
            id: opt_i32_view(self.id),
            product_id: self.product_id as int,
            color: self.color@,
            stock: self.stock as int,
            size: self.size@,
        }
    }
}

impl View for GetItemModel {
    type V = GetItemModelV;

    open spec fn view(&self) -> GetItemModelV {
        GetItemModelV {
            product_id: self.product_id as int,
            color: self.color@,
            size: self.size@,
            stock: self.stock as int,
        }
    }
}

impl View for UpdateItemModel {
    type V = UpdateItemModelV;

    open spec fn view(&self) -> UpdateItemModelV {
        UpdateItemModelV {
            size: opt_str_view(self.size),
            color: opt_str_view(self.color),
            stock: opt_i32_view(self.stock),
        }
    }
}

impl View for WholeProductModel {
    type V = WholeProductModelV;

    open spec fn view(&self) -> WholeProductModelV {
        WholeProductModelV {
            id: self.id as int,
            name: self.name@,
            description: opt_str_view(self.description),
            created_at: self.created_at as int,
            updated_at: self.updated_at as int,
        }
    }
}

impl View for CreateProductModal {
    type V = CreateProductModalV;

    open spec fn view(&self) -> CreateProductModalV {
        CreateProductModalV {
            name: self.name@,
            description: opt_str_view(self.description),
        }
    }
}

impl View for UpdateProductModal {
    type V = UpdateProductModalV;

    open spec fn view(&self) -> UpdateProductModalV {
        UpdateProductModalV {
            name: opt_str_view(self.name),
            description: opt_str_view(self.description),
        }
    }
}

impl View for ProductItemModel {
    type V = ProductItemModelV;

    open spec fn view(&self) -> ProductItemModelV {
        ProductItemModelV {
            id: self.id as int,
            name: self.name@,
            description: opt_str_view(self.description),
            items: self.items@.map_values(|it: ItemModel| it@),
        }
    }
}

pub const STATUS_OK: u16 = 200;

pub const STATUS_CREATED: u16 = 201;

pub const STATUS_ACCEPTED: u16 = 202;

pub const STATUS_BAD_REQUEST: u16 = 400;

pub const STATUS_NOT_FOUND: u16 = 404;

pub const STATUS_INTERNAL_SERVER_ERROR: u16 = 500;

/// The HTTP status that reports each error: invalid input is the
/// client's fault, a store failure is the server's.
pub open spec fn error_status(e: ErrorModel) -> int {
    match e {
        ErrorModel::ValidationError(_) => 400,
        ErrorModel::DatabaseError(_) => 500,
    }
}

/// The message carried by an error.
pub open spec fn error_message(e: ErrorModel) -> Seq<char> {
    match e {
        ErrorModel::ValidationError(m) => m@,
        ErrorModel::DatabaseError(m) => m@,
    }
}

/// The HTTP status that reports each error of a lookup-style operation:
/// an absent entity is reported as not found.
pub open spec fn lookup_error_status(e: NotFoundErrorModel) -> int {
    match e {
        NotFoundErrorModel::ValidationError(_) => 400,
        NotFoundErrorModel::DatabaseError(_) => 500,
        NotFoundErrorModel::NotFoundError(_) => 404,
    }
}

/// The message carried by an error of a lookup-style operation.
pub open spec fn lookup_error_message(e: NotFoundErrorModel) -> Seq<char> {
    match e {
        NotFoundErrorModel::ValidationError(m) => m@,
        NotFoundErrorModel::DatabaseError(m) => m@,
        NotFoundErrorModel::NotFoundError(m) => m@,
    }
}

/// Turns an error into the transport reply: its status code and the
/// message for the error body.
pub fn error_response(e: ErrorModel) -> (r: (u16, String))
    ensures
        r.0 as int == error_status(e),
        r.1@ == error_message(e),
{
    match e {
        ErrorModel::ValidationError(m) => (STATUS_BAD_REQUEST, m),
        ErrorModel::DatabaseError(m) => (STATUS_INTERNAL_SERVER_ERROR, m),
    }
}

/// Turns an error of a lookup-style operation into the transport reply.
pub fn lookup_error_response(e: NotFoundErrorModel) -> (r: (u16, String))
    ensures
        r.0 as int == lookup_error_status(e),
        r.1@ == lookup_error_message(e),
{
    match e {
        NotFoundErrorModel::ValidationError(m) => (STATUS_BAD_REQUEST, m),
        NotFoundErrorModel::DatabaseError(m) => (STATUS_INTERNAL_SERVER_ERROR, m),
        NotFoundErrorModel::NotFoundError(m) => (STATUS_NOT_FOUND, m),
    }
}

/// Copies an optional string, keeping its value.
pub fn clone_opt_string(o: &Option<String>) -> (r: Option<String>)
    ensures
        r == *o,
{
    match o {
        Some(s) => Some(s.clone()),
        None => None,
    }
}

} // verus!
