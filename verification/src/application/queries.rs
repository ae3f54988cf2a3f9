//! What the catalogue hands out to a client.

use vstd::prelude::*;
use crate::domain::product::Product;
use crate::model::ProductModel;

verus! {

/// A product as a use case shows it: a copy for reading, cut loose from the
/// entity it was made of.
#[derive(Debug, PartialEq, Eq)]
pub struct GetProductQuery {
    pub id: u32,
    pub name: String,
    pub price: u32,
    pub description: String,
    pub quantity: u32,
}

impl View for GetProductQuery {
    type V = ProductModel;

    open spec fn view(&self) -> ProductModel {
        ProductModel {
            id: self.id as nat,
            name: self.name@,
            price: self.price as nat,
            description: self.description@,
            quantity: self.quantity as nat,
        }
    }
}

impl DeepView for GetProductQuery {
    type V = ProductModel;

    open spec fn deep_view(&self) -> ProductModel {
        self@
    }
}

impl Clone for GetProductQuery {
    fn clone(&self) -> (copy: Self)
        ensures
            copy == *self,
    {
        GetProductQuery {
            id: self.id,
            name: self.name.clone(),
            price: self.price,
            description: self.description.clone(),
            quantity: self.quantity,
        }
    }
}

impl From<Product> for GetProductQuery {
    fn from(product: Product) -> (query: GetProductQuery) {
        GetProductQuery {
            id: product.id,
            name: product.name,
            price: product.price,
            description: product.description,
            quantity: product.quantity,
        }
    }
}

impl vstd::std_specs::convert::FromSpecImpl<Product> for GetProductQuery {
    open spec fn obeys_from_spec() -> bool {
        true
    }

    open spec fn from_spec(product: Product) -> GetProductQuery {
        GetProductQuery {
            id: product.id,
            name: product.name,
            price: product.price,
            description: product.description,
            quantity: product.quantity,
        }
    }
}

} // verus!
