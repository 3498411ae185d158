//! A verified product/item catalogue service.
//!
//! Two related entities, `Product` and `Item`, live in a relational store:
//! every item references an owning product by id. The crate verifies the
//! service stack above the wire: input validation, partial-update
//! semantics, the cascading delete of a product together with its items,
//! row-to-model mapping, and the translation of domain errors to HTTP
//! status codes. The store is held in memory as two tables with
//! auto-assigned integer ids; its referential integrity is an invariant
//! proved for every operation.

pub mod clock;
pub mod item_handler;
pub mod item_repository;
pub mod item_service;
pub mod laws;
pub mod models;
pub mod product_handler;
pub mod product_repository;
pub mod product_service;
pub mod store;
