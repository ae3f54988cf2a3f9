//! The product entity and its one rule.

use vstd::prelude::*;
use crate::error::Error;
use crate::model::ProductModel;

verus! {

/// A sellable item.
#[derive(Debug, PartialEq, Eq)]
pub struct Product {
    pub id: u32,
    pub name: String,
    pub price: u32,
    pub description: String,
    pub quantity: u32,
}

impl View for Product {
    type V = ProductModel;

    open spec fn view(&self) -> ProductModel {
        ProductModel {
            id: self.id as nat,
            name: self.name@,
            price: self.price as nat,
            description: self.description@,
            quantity: self.quantity as nat,
        }
    }
}

impl DeepView for Product {
    type V = ProductModel;

    open spec fn deep_view(&self) -> ProductModel {
        self@
    }
}

impl Clone for Product {
    fn clone(&self) -> (copy: Self)
        ensures
            copy == *self,
    {
        Product {
            id: self.id,
            name: self.name.clone(),
            price: self.price,
            description: self.description.clone(),
            quantity: self.quantity,
        }
    }
}

impl Product {
    /// A product with the given fields.
    pub fn new(id: u32, name: String, price: u32, description: String, quantity: u32) -> (product:
        Self)
        ensures
            product == (Product { id, name, price, description, quantity }),
    {
        Self { id, name, price, description, quantity }
    }

    /// Takes `quantity` units out of the stock, or refuses and leaves the
    /// product as it was when it has fewer.
    pub fn sell(&mut self, quantity: u32) -> (outcome: Result<(), Error>)
        ensures
            quantity <= old(self).quantity ==> outcome is Ok && *final(self) == (Product {
                quantity: (old(self).quantity - quantity) as u32,
                ..*old(self)
            }) && final(self)@ == old(self)@.sold(quantity as nat),
            quantity > old(self).quantity ==> outcome == Err::<(), Error>(Error::InsufficientStock)
                && *final(self) == *old(self),
    {
        if quantity > self.quantity {
            return Err(Error::InsufficientStock);
        }
        self.quantity -= quantity;
        Ok(())
    }
}

} // verus!
