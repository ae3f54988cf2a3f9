//! The shapes in which products and requests cross the transport.

use vstd::prelude::*;
use crate::application::commands::BuyProductCommand;
use crate::application::queries::GetProductQuery;
use crate::model::ProductModel;

verus! {

/// A product as it is sent to a client.
#[derive(Debug, PartialEq, Eq)]
pub struct ProductDto {
    pub id: u32,
    pub name: String,
    pub price: u32,
    pub description: String,
    pub quantity: u32,
}

impl View for ProductDto {
    type V = ProductModel;

    open spec fn view(&self) -> ProductModel {
        ProductModel {
            id: self.id as nat,
            name: self.name@,
            price: self.price as nat,
            description: self.description@,
            quantity: self.quantity as nat,
        }
    }
}

impl DeepView for ProductDto {
    type V = ProductModel;

    open spec fn deep_view(&self) -> ProductModel {
        self@
    }
}

impl Clone for ProductDto {
    fn clone(&self) -> (copy: Self)
        ensures
            copy == *self,
    {
        ProductDto {
            id: self.id,
            name: self.name.clone(),
            price: self.price,
            description: self.description.clone(),
            quantity: self.quantity,
        }
    }
}

impl From<GetProductQuery> for ProductDto {
    fn from(query: GetProductQuery) -> (dto: ProductDto) {
        ProductDto {
            id: query.id,
            name: query.name,
            price: query.price,
            description: query.description,
            quantity: query.quantity,
        }
    }
}

impl vstd::std_specs::convert::FromSpecImpl<GetProductQuery> for ProductDto {
    open spec fn obeys_from_spec() -> bool {
        true
    }

    open spec fn from_spec(query: GetProductQuery) -> ProductDto {
        ProductDto {
            id: query.id,
            name: query.name,
            price: query.price,
            description: query.description,
            quantity: query.quantity,
        }
    }
}

/// The body of a request to buy: how many units.
#[derive(Debug, Clone, Copy, PartialEq, Eq)]
pub struct BuyProductDto {
    pub quantity: u32,
}

impl From<BuyProductDto> for BuyProductCommand {
    fn from(dto: BuyProductDto) -> (command: BuyProductCommand) {
        BuyProductCommand { quantity: dto.quantity }
    }
}

impl vstd::std_specs::convert::FromSpecImpl<BuyProductDto> for BuyProductCommand {
    open spec fn obeys_from_spec() -> bool {
        true
    }

    open spec fn from_spec(dto: BuyProductDto) -> BuyProductCommand {
        BuyProductCommand { quantity: dto.quantity }
    }
}

} // verus!
