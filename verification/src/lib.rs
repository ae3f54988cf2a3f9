//! A product catalogue with one stock-keeping rule: a sale never takes more
//! units than the product has.
//!
//! The crate is layered. `domain` holds the product and its rule, `model` the
//! mathematical picture of the product table that every contract speaks of,
//! `application` the use cases and the repository they are written against,
//! `infrastructure` the table itself and the repository over it,
//! `presentation` the transport-facing operations, and `di` the container
//! that wires them together.

pub mod application;
pub mod di;
pub mod domain;
pub mod error;
pub mod infrastructure;
pub mod model;
pub mod presentation;
pub mod purchases;
