//! The domain layer: the product entity.

pub mod product;
