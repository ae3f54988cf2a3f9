//! The application layer: the use cases, what they hand out, and the
//! repository they are written against.

pub mod buy_product_usecase;
pub mod commands;
pub mod get_all_products_usecase;
pub mod get_product_usecase;
pub mod queries;
pub mod repositories;
