//! A row of the product table as the table hands it out.

use vstd::prelude::*;
use crate::model::RowModel;

verus! {

/// One row of the product table: the columns of a product and the times, as
/// RFC 3339 text, at which the row was created and last written.
#[derive(Debug, PartialEq, Eq)]
pub struct ProductEntity {
    pub id: u32,
    pub name: String,
    pub price: u32,
    pub description: String,
    pub quantity: u32,
    pub created_at: String,
    pub updated_at: String,
}

impl View for ProductEntity {
    type V = RowModel;

    open spec fn view(&self) -> RowModel {
        RowModel {
            id: self.id as nat,
            name: self.name@,
            price: self.price as nat,
            description: self.description@,
            quantity: self.quantity as nat,
            created_at: self.created_at@,
            updated_at: self.updated_at@,
        }
    }
}

impl DeepView for ProductEntity {
    type V = RowModel;

    open spec fn deep_view(&self) -> RowModel {
        self@
    }
}

impl Clone for ProductEntity {
    fn clone(&self) -> (copy: Self)
        ensures
            copy == *self,
    {
        ProductEntity {
            id: self.id,
            name: self.name.clone(),
            price: self.price,
            description: self.description.clone(),
            quantity: self.quantity,
            created_at: self.created_at.clone(),
            updated_at: self.updated_at.clone(),
        }
    }
}

/// The row that an entity stands for, if there is an entity.
pub open spec fn row_of(entity: Option<ProductEntity>) -> Option<RowModel> {
    match entity {
        Some(entity) => Some(entity@),
        None => None,
    }
}

} // verus!
