//! The infrastructure layer: the product table and the repository over it.

pub mod clock;
pub mod in_memory_product_store;
pub mod product_entity;
pub mod product_store;
pub mod sqlite_product_repository;
