//! The presentation layer: what the transport calls and what it sends back.

pub mod dto;
pub mod routes_product;
